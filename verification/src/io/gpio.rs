//! The general purpose I/O port of the game pak, and the real time clock
//! that some game paks connect to it.
use vstd::prelude::*;
use crate::gba::CLOCK_FREQ;

verus! {

/// A device on the game pak's I/O port: four data pins, a direction mask,
/// and a control register.
pub trait GPIO {
    /// The device's invariant.
    spec fn inv(&self) -> bool;

    /// Whether the device defines its response to the pins as they are.
    spec fn step_ok(&self) -> bool;

    /// Whether a write of `value` to the port register at `byte` is defined.
    spec fn write_ok(&self, byte: u8, value: u8) -> bool;

    fn clock(&mut self)
        requires
            old(self).inv(),
        ensures
            final(self).inv(),
    ;

    fn process_write(&mut self)
        requires
            old(self).inv(),
            old(self).step_ok(),
        ensures
            final(self).inv(),
    ;

    fn read(&self, byte: u8) -> u8
        requires
            byte < 6,
    ;

    fn write(&mut self, byte: u8, value: u8)
        requires
            old(self).inv(),
            old(self).write_ok(byte, value),
        ensures
            final(self).inv(),
    ;

    fn data0(&self) -> bool;

    fn data1(&self) -> bool;

    fn data2(&self) -> bool;

    fn data3(&self) -> bool;

    fn is_used(&self) -> bool;

    fn write_mask(&self) -> u8;

    fn can_write(&self, bit: u8) -> bool;

    fn set_write_mask(&mut self, value: u8);

    fn write_only(&self) -> bool;

    fn set_write_only(&mut self, value: bool);

    /// Reads the port register at `offset` (0 to 5).
    fn read_register(&self, offset: u32) -> u8
        requires
            offset < 6,
    {
        self.read(offset as u8)
    }

    /// Writes the port register at `offset`.
    fn write_register(&mut self, offset: u32, value: u8)
        requires
            old(self).inv(),
            offset < 0x100,
            old(self).write_ok(offset as u8, value),
    {
        self.write(offset as u8, value)
    }
}

/// A two digit binary coded decimal counter that wraps from above `max`
/// back to `initial`.
#[derive(Clone, Copy, Debug, PartialEq, Eq, Structural)]
pub struct BCD {
    pub initial: u8,
    pub value: u8,
    pub max: u8,
}

/// Whether both nibbles of `v` are decimal digits.
pub open spec fn valid_bcd(v: u8) -> bool {
    v % 16 < 10 && v / 16 < 10
}

/// The BCD number after `v`.
pub open spec fn bcd_succ(v: u8) -> u8 {
    if (v + 1) % 16 > 9 { ((v + 1) / 16 * 16 + 0x10) as u8 } else { (v + 1) as u8 }
}

impl BCD {
    pub open spec fn wf(&self) -> bool {
        valid_bcd(self.initial) && valid_bcd(self.value) && self.max < 0x9A
    }

    pub fn new(initial: u8, max: u8) -> (r: BCD)
        ensures
            r == (BCD { initial, value: initial, max }),
    {
        BCD { initial, value: initial, max }
    }

    /// Counts up, wrapping at `self.max`; the result says whether it
    /// wrapped.
    pub fn inc(&mut self) -> (r: bool)
        requires
            old(self).wf(),
        ensures
            final(self).wf(),
            final(self).initial == old(self).initial,
            final(self).max == old(self).max,
            r == (old(self).value + 1 > old(self).max),
            final(self).value == (if r { old(self).initial } else { bcd_succ(old(self).value) }),
    {
        let max = self.max;
        self.inc_with_max(max)
    }

    /// Counts up, wrapping at `max`; the result says whether it wrapped.
    pub fn inc_with_max(&mut self, max: u8) -> (r: bool)
        requires
            old(self).wf(),
            max < 0x9A,
        ensures
            old(self).max < 0x9A ==> final(self).wf(),
            valid_bcd(final(self).value),
            final(self).initial == old(self).initial,
            final(self).max == old(self).max,
            r == (old(self).value + 1 > max),
            final(self).value == (if r { old(self).initial } else { bcd_succ(old(self).value) }),
    {
        self.value = self.value + 1;
        if self.value > max {
            self.value = self.initial;
            true
        } else {
            let v = self.value;
            if v % 16 > 0x9 {
                self.value = v / 16 * 16 + 0x10;
            }
            false
        }
    }

    pub fn value(&self) -> (r: u8)
        ensures
            r == self.value,
    {
        self.value
    }

    pub fn set_value(&mut self, value: u8)
        requires
            valid_bcd(value),
        ensures
            *final(self) == (BCD { value, ..*old(self) }),
    {
        self.value = value;
    }
}

/// The control register of the clock.
#[derive(Clone, Copy, Debug, PartialEq, Eq, Structural)]
pub struct Control {
    pub is_24h: bool,
    pub per_min_irq: bool,
}

impl Control {
    pub fn new() -> (r: Control)
        ensures
            r == (Control { is_24h: false, per_min_irq: false }),
    {
        Control { is_24h: false, per_min_irq: false }
    }

    pub fn read(&self) -> (r: u8)
        ensures
            r == (if self.is_24h { 0x40u8 } else { 0 }) | (if self.per_min_irq { 0x08u8 } else { 0 }),
    {
        (if self.is_24h { 0x40u8 } else { 0 }) | (if self.per_min_irq { 0x08u8 } else { 0 })
    }

    pub fn write(&mut self, value: u8)
        ensures
            final(self).is_24h == ((value / 64) % 2 == 1),
            final(self).per_min_irq == ((value / 8) % 2 == 1),
    {
        self.is_24h = value / 64 % 2 == 1;
        self.per_min_irq = value / 8 % 2 == 1;
    }
}

/// The date and time of the clock, in BCD.
#[derive(Clone, Copy, Debug, PartialEq, Eq, Structural)]
pub struct DateTime {
    pub control: Control,
    pub year: BCD,
    pub month: BCD,
    pub day: BCD,
    pub day_of_week: BCD,
    pub is_pm: bool,
    pub hour: BCD,
    pub minute: BCD,
    pub second: BCD,
}

impl DateTime {
    pub open spec fn wf(&self) -> bool {
        &&& self.year.wf()
        &&& self.month.wf()
        &&& self.day.wf()
        &&& self.day_of_week.wf()
        &&& self.hour.wf()
        &&& self.minute.wf()
        &&& self.second.wf()
    }

    pub open spec fn initial() -> DateTime {
        DateTime {
            control: Control { is_24h: false, per_min_irq: false },
            year: BCD { initial: 0x0, value: 0x0, max: 0x99 },
            month: BCD { initial: 0x1, value: 0x1, max: 0x12 },
            day: BCD { initial: 0x1, value: 0x1, max: 0x30 },
            day_of_week: BCD { initial: 0x1, value: 0x1, max: 0x07 },
            is_pm: false,
            hour: BCD { initial: 0x0, value: 0x0, max: 0x23 },
            minute: BCD { initial: 0x0, value: 0x0, max: 0x59 },
            second: BCD { initial: 0x0, value: 0x0, max: 0x59 },
        }
    }

    /// Midnight of the first day of year 00.
    pub fn new() -> (r: DateTime)
        ensures
            r == DateTime::initial(),
            r.wf(),
    {
        DateTime {
            control: Control::new(),
            year: BCD::new(0x0, 0x99),
            month: BCD::new(0x1, 0x12),
            day: BCD::new(0x1, 0x30),
            day_of_week: BCD::new(0x1, 0x07),
            is_pm: false,
            hour: BCD::new(0x0, 0x23),
            minute: BCD::new(0x0, 0x59),
            second: BCD::new(0x0, 0x59),
        }
    }

    /// Byte `byte` of the date and time: year, month, day, day of the week,
    /// hour (bit 6: afternoon), minute, second.
    pub open spec fn byte(&self, byte: u8) -> u8 {
        if byte == 0 {
            self.year.value
        } else if byte == 1 {
            self.month.value
        } else if byte == 2 {
            self.day.value
        } else if byte == 3 {
            self.day_of_week.value
        } else if byte == 4 {
            let pm = if self.control.is_24h { self.hour.value >= 0x12 } else { self.is_pm };
            (if pm { 0x40u8 } else { 0u8 }) | self.hour.value
        } else if byte == 5 {
            self.minute.value
        } else {
            self.second.value
        }
    }

    pub fn read(&self, byte: u8) -> (r: u8)
        requires
            byte < 7,
        ensures
            r == self.byte(byte),
    {
        match byte {
            0 => self.year.value(),
            1 => self.month.value(),
            2 => self.day.value(),
            3 => self.day_of_week.value(),
            4 => {
                let hour = self.hour.value();
                let bit_6 = if self.control.is_24h { hour >= 0x12 } else { self.is_pm };
                (if bit_6 { 0x40u8 } else { 0u8 }) | hour
            },
            5 => self.minute.value(),
            _ => self.second.value(),
        }
    }

    /// The date and time after a write of `value` to byte `byte`.
    pub open spec fn written(self, byte: u8, value: u8) -> DateTime {
        if byte == 0 {
            DateTime { year: BCD { value, ..self.year }, ..self }
        } else if byte == 1 {
            DateTime { month: BCD { value, ..self.month }, ..self }
        } else if byte == 2 {
            DateTime { day: BCD { value, ..self.day }, ..self }
        } else if byte == 3 {
            DateTime { day_of_week: BCD { value, ..self.day_of_week }, ..self }
        } else if byte == 4 {
            DateTime {
                hour: BCD { value, ..self.hour },
                is_pm: if self.control.is_24h { self.is_pm } else { (value / 64) % 2 == 1 },
                ..self
            }
        } else if byte == 5 {
            DateTime { minute: BCD { value, ..self.minute }, ..self }
        } else {
            DateTime { second: BCD { value, ..self.second }, ..self }
        }
    }

    pub fn write(&mut self, byte: u8, value: u8)
        requires
            byte < 7,
            valid_bcd(value),
        ensures
            *final(self) == old(self).written(byte, value),
    {
        match byte {
            0 => self.year.set_value(value),
            1 => self.month.set_value(value),
            2 => self.day.set_value(value),
            3 => self.day_of_week.set_value(value),
            4 => {
                self.hour.set_value(value);
                if !self.control.is_24h {
                    self.is_pm = value / 64 % 2 == 1;
                }
            },
            5 => self.minute.set_value(value),
            _ => self.second.set_value(value),
        }
    }

    /// The date and time one second later.
    pub open spec fn tick(self) -> DateTime {
        let second = self.second.value + 1 > self.second.max;
        let minute = second && self.minute.value + 1 > self.minute.max;
        let hour = minute && self.hour.value + 1 > self.hour.max;
        let day = hour && self.day.value + 1 > 30;
        let month = day && self.month.value + 1 > self.month.max;
        let next = |b: BCD, wrapped: bool| if wrapped { b.initial } else { bcd_succ(b.value) };
        DateTime {
            second: BCD { value: next(self.second, second), ..self.second },
            minute: if second { BCD { value: next(self.minute, minute), ..self.minute } } else { self.minute },
            hour: if minute { BCD { value: next(self.hour, hour), ..self.hour } } else { self.hour },
            day_of_week: if hour {
                BCD {
                    value: next(self.day_of_week, self.day_of_week.value + 1 > self.day_of_week.max),
                    ..self.day_of_week
                }
            } else {
                self.day_of_week
            },
            day: if hour { BCD { value: next(self.day, day), ..self.day } } else { self.day },
            month: if day { BCD { value: next(self.month, month), ..self.month } } else { self.month },
            year: if month {
                BCD { value: next(self.year, self.year.value + 1 > self.year.max), ..self.year }
            } else {
                self.year
            },
            ..self
        }
    }
}

/// The parameter that a command reads or writes, with the next byte.
#[derive(Clone, Copy, Debug, PartialEq, Eq, Structural)]
pub enum Parameter {
    Control(u8),
    DateTime(u8),
    Time(u8),
    Reset,
    IRQ,
}

impl Parameter {
    /// The parameter of a command's three parameter bits.
    pub fn from(value: u8) -> (r: Parameter)
        requires
            value == 0 || value == 2 || value == 3 || value == 4 || value == 6,
        ensures
            r == (if value == 4 {
                Parameter::Control(0)
            } else if value == 2 {
                Parameter::DateTime(0)
            } else if value == 6 {
                Parameter::Time(0)
            } else if value == 0 {
                Parameter::Reset
            } else {
                Parameter::IRQ
            }),
    {
        match value {
            4 => Parameter::Control(0),
            2 => Parameter::DateTime(0),
            6 => Parameter::Time(0),
            0 => Parameter::Reset,
            _ => Parameter::IRQ,
        }
    }
}

/// The direction of a command's data, with the byte and bit in progress.
#[derive(Clone, Copy, Debug, PartialEq, Eq, Structural)]
pub enum RtcAccess {
    Read(u8, usize),
    Write(u8, usize),
}

/// The state of the serial protocol of the clock.
#[derive(Clone, Copy, Debug, PartialEq, Eq, Structural)]
pub enum RtcMode {
    StartCommand { done: bool },
    SetCommand(u8, usize),
    ExecCommand(Parameter, RtcAccess),
    EndCommand,
}

/// The command code in the low nibble of a command byte sent least
/// significant bit first.
pub const COMMAND_CODE: u8 = 0b0110;

/// `x` (0 to 7) with its three bits in reverse order.
pub open spec fn reverse3(x: u8) -> u8 {
    if x == 0 {
        0
    } else if x == 1 {
        4
    } else if x == 2 {
        2
    } else if x == 3 {
        6
    } else if x == 4 {
        1
    } else if x == 5 {
        5
    } else if x == 6 {
        3
    } else {
        7
    }
}

/// The command nibble of a command byte: the high nibble when the byte came
/// least significant bit first, else the low nibble with its bits reversed.
pub open spec fn command_nibble(command: u8) -> u8 {
    if command % 16 == COMMAND_CODE {
        command / 16
    } else {
        reverse3((command % 16) / 2) | ((command % 2) * 8) as u8
    }
}

/// The real time clock (S-3511), driven through the game pak's I/O port:
/// SCK on pin 0, SIO on pin 1 and CS on pin 2.
#[derive(Clone, Copy, Debug, PartialEq, Eq, Structural)]
pub struct RTC {
    pub prev_sck: bool,
    pub sck: bool,
    pub sio: bool,
    pub cs: bool,
    pub is_used: bool,
    pub write_only: bool,
    pub write_mask: u8,
    pub mode: RtcMode,
    pub last_byte: bool,
    pub counter: usize,
    pub date_time: DateTime,
}

/// "SIIRTC_V", the string by which a ROM says that its game pak has the
/// clock.
pub open spec fn rtc_id() -> Seq<u8> {
    seq![0x53u8, 0x49, 0x49, 0x52, 0x54, 0x43, 0x5F, 0x56]
}

/// Whether the identification string starts at `pos` of `rom`.
pub open spec fn rtc_id_at(rom: Seq<u8>, pos: int) -> bool {
    rom.subrange(pos, pos + 8) == rtc_id()
}

/// The clock after reading `parameter`: the byte read and the parameter of
/// the next byte.
pub open spec fn read_parameter_spec(r: RTC, parameter: Parameter) -> (RTC, u8, Parameter) {
    match parameter {
        Parameter::Control(b) => (RTC { last_byte: b == 0, ..r }, r.date_time.control.read_spec(),
            Parameter::Control((b + 1) as u8)),
        Parameter::DateTime(b) => (RTC { last_byte: b == 6, ..r }, r.date_time.byte(b), Parameter::DateTime(
            (b + 1) as u8,
        )),
        Parameter::Time(b) => (RTC { last_byte: b == 2, ..r }, r.date_time.byte((b + 4) as u8), Parameter::Time(
            (b + 1) as u8,
        )),
        _ => (RTC { date_time: DateTime::initial(), last_byte: true, ..r }, 0, Parameter::Reset),
    }
}

/// Whether `parameter` can be read: the clock's interrupt cannot, and the
/// byte must be one of the parameter's.
pub open spec fn read_parameter_ok(parameter: Parameter) -> bool {
    match parameter {
        Parameter::Control(b) => b < 255,
        Parameter::DateTime(b) => b < 7,
        Parameter::Time(b) => b < 3,
        Parameter::Reset => true,
        Parameter::IRQ => false,
    }
}

/// The clock after writing `value` to `parameter`.
pub open spec fn write_parameter_spec(r: RTC, parameter: Parameter, value: u8) -> RTC {
    match parameter {
        Parameter::Control(b) => RTC {
            date_time: DateTime {
                control: Control { is_24h: (value / 64) % 2 == 1, per_min_irq: (value / 8) % 2 == 1 },
                ..r.date_time
            },
            last_byte: b == 0,
            ..r
        },
        Parameter::DateTime(b) => RTC { date_time: r.date_time.written(b, value), last_byte: b == 6, ..r },
        Parameter::Time(b) => RTC { date_time: r.date_time.written((b + 4) as u8, value), last_byte: b == 2, ..r },
        Parameter::Reset => RTC { date_time: DateTime::initial(), last_byte: false, ..r },
        Parameter::IRQ => RTC { last_byte: false, ..r },
    }
}

pub open spec fn write_parameter_ok(parameter: Parameter, value: u8) -> bool {
    match parameter {
        Parameter::DateTime(b) => b < 7 && valid_bcd(value),
        Parameter::Time(b) => b < 3 && valid_bcd(value),
        _ => true,
    }
}

impl Control {
    pub open spec fn read_spec(&self) -> u8 {
        (if self.is_24h { 0x40u8 } else { 0 }) | (if self.per_min_irq { 0x08u8 } else { 0 })
    }
}

/// Whether SCK just fell: the clock takes a bit on each falling edge.
pub open spec fn falling_edge(r: RTC) -> bool {
    r.prev_sck && !r.sck
}

/// The clock after the pins changed: one step of the serial protocol.
pub open spec fn rtc_step(r: RTC) -> RTC {
    let sio = if r.sio { 1u8 } else { 0u8 };
    match r.mode {
        RtcMode::StartCommand { done: false } => RTC { mode: RtcMode::StartCommand { done: true }, ..r },
        RtcMode::StartCommand { done: true } => if r.cs && r.sck {
            RTC { mode: RtcMode::SetCommand(0, 0), ..r }
        } else {
            r
        },
        RtcMode::SetCommand(command, bit) => if !falling_edge(r) {
            r
        } else if bit == 7 {
            let c = command_nibble(command | (sio << 7u8) as u8);
            let parameter = parameter_of(c % 8);
            let (r1, next) = if c / 8 != 0 {
                let (r1, byte, next) = read_parameter_spec(r, parameter);
                (r1, RtcMode::ExecCommand(next, RtcAccess::Read(byte, 0)))
            } else {
                (r, RtcMode::ExecCommand(parameter, RtcAccess::Write(0, 0)))
            };
            let p = match next {
                RtcMode::ExecCommand(p, _) => p,
                _ => parameter,
            };
            RTC { mode: if p == Parameter::Reset || p == Parameter::IRQ { RtcMode::EndCommand } else { next }, ..r1 }
        } else {
            RTC { mode: RtcMode::SetCommand(command | (sio << bit as u8) as u8, (bit + 1) as usize), ..r }
        },
        RtcMode::ExecCommand(parameter, RtcAccess::Read(byte, bit)) => if !falling_edge(r) {
            r
        } else if bit == 7 {
            let r1 = RTC { sio: byte % 2 == 1, ..r };
            if r.last_byte {
                RTC { mode: RtcMode::EndCommand, ..r1 }
            } else {
                let (r2, b, next) = read_parameter_spec(r1, parameter);
                RTC { mode: RtcMode::ExecCommand(next, RtcAccess::Read(b, 0)), ..r2 }
            }
        } else {
            RTC {
                sio: byte % 2 == 1,
                mode: RtcMode::ExecCommand(parameter, RtcAccess::Read(byte / 2, (bit + 1) as usize)),
                ..r
            }
        },
        RtcMode::ExecCommand(parameter, RtcAccess::Write(byte, bit)) => if !falling_edge(r) {
            r
        } else if bit == 7 {
            let r1 = write_parameter_spec(r, parameter, byte | (sio << 7u8) as u8);
            RTC {
                mode: if r.last_byte {
                    RtcMode::EndCommand
                } else {
                    RtcMode::ExecCommand(parameter, RtcAccess::Write((byte + 1) as u8, 0))
                },
                ..r1
            }
        } else {
            RTC {
                mode: RtcMode::ExecCommand(parameter, RtcAccess::Write(byte | (sio << bit as u8) as u8, (bit + 1) as usize)),
                ..r
            }
        },
        RtcMode::EndCommand => if !r.cs && r.sck {
            RTC { mode: RtcMode::StartCommand { done: false }, ..r }
        } else {
            r
        },
    }
}

/// The parameter of three parameter bits, where they name one.
pub open spec fn parameter_of(value: u8) -> Parameter {
    if value == 4 {
        Parameter::Control(0)
    } else if value == 2 {
        Parameter::DateTime(0)
    } else if value == 6 {
        Parameter::Time(0)
    } else if value == 0 {
        Parameter::Reset
    } else {
        Parameter::IRQ
    }
}

/// Whether the step of the protocol is defined: the pins follow the
/// protocol, the command is a command of the clock, and the parameter it
/// names can be accessed.
pub open spec fn rtc_step_ok(r: RTC) -> bool {
    let sio = if r.sio { 1u8 } else { 0u8 };
    match r.mode {
        RtcMode::StartCommand { done: false } => !r.cs && r.sck,
        RtcMode::SetCommand(command, bit) => falling_edge(r) ==> if bit == 7 {
            let full = command | (sio << 7u8) as u8;
            let c = command_nibble(full);
            let v = c % 8;
            &&& full % 16 == COMMAND_CODE || full / 16 == COMMAND_CODE
            &&& v == 0 || v == 2 || v == 3 || v == 4 || v == 6
            &&& c / 8 != 0 ==> read_parameter_ok(parameter_of(v))
        } else {
            r.cs
        },
        RtcMode::ExecCommand(parameter, RtcAccess::Read(_, bit)) => falling_edge(r) && bit == 7 && !r.last_byte
            ==> read_parameter_ok(parameter),
        RtcMode::ExecCommand(parameter, RtcAccess::Write(byte, bit)) => falling_edge(r) && bit == 7 ==> {
            &&& write_parameter_ok(parameter, byte | (sio << 7u8) as u8)
            &&& !r.last_byte ==> byte < 255
        },
        _ => true,
    }
}

impl RTC {
    /// The bit counters stay below 8 and the date and time stay in BCD.
    pub open spec fn wf(&self) -> bool {
        &&& self.date_time.wf()
        &&& match self.mode {
            RtcMode::SetCommand(_, bit) => bit <= 7,
            RtcMode::ExecCommand(_, RtcAccess::Read(_, bit)) => bit <= 7,
            RtcMode::ExecCommand(_, RtcAccess::Write(_, bit)) => bit <= 7,
            _ => true,
        }
    }

    /// A clock, in use when the ROM holds its identification string (before
    /// the last eight bytes).
    pub fn new(rom: &Vec<u8>) -> (r: RTC)
        requires
            rom@.len() >= 8,
        ensures
            r.wf(),
            r.is_used == exists|i: int| 0 <= i < rom@.len() - 8 && rtc_id_at(rom@, i),
            !r.prev_sck && !r.sck && !r.sio && !r.cs,
            r.write_only,
            r.write_mask == 0b111,
            r.mode == (RtcMode::StartCommand { done: false }),
            r.counter == CLOCK_FREQ,
            !r.last_byte,
            r.date_time == DateTime::initial(),
    {
        let id: Vec<u8> = vec![0x53u8, 0x49, 0x49, 0x52, 0x54, 0x43, 0x5F, 0x56];
        assert(id@ =~= rtc_id());
        let n = rom.len() - 8;
        let mut is_used = false;
        let mut i: usize = 0;
        while i < n
            invariant
                n == rom@.len() - 8,
                i <= n,
                id@ == rtc_id(),
                is_used == exists|k: int| 0 <= k < i && rtc_id_at(rom@, k),
            decreases n - i,
        {
            let mut j: usize = 0;
            let mut same = true;
            while j < 8
                invariant
                    i < n,
                    n == rom@.len() - 8,
                    j <= 8,
                    id@ == rtc_id(),
                    same == forall|k: int| 0 <= k < j ==> rom@[i + k] == id@[k],
                decreases 8 - j,
            {
                assert(i + j < rom.len());
                if rom[i + j] != id[j] {
                    same = false;
                }
                j = j + 1;
            }
            proof {
                if same {
                    assert(rom@.subrange(i as int, i + 8) =~= rtc_id());
                } else {
                    let k = choose|k: int| 0 <= k < 8 && rom@[i + k] != id@[k];
                    assert(rom@.subrange(i as int, i + 8)[k] != rtc_id()[k]);
                }
                assert(same == rtc_id_at(rom@, i as int));
                if exists|k: int| 0 <= k < i + 1 && rtc_id_at(rom@, k) {
                    let k = choose|k: int| 0 <= k < i + 1 && rtc_id_at(rom@, k);
                    if k < i {
                        assert(exists|k: int| 0 <= k < i && rtc_id_at(rom@, k));
                    }
                }
                if is_used {
                    let k = choose|k: int| 0 <= k < i && rtc_id_at(rom@, k);
                    assert(0 <= k < i + 1 && rtc_id_at(rom@, k));
                }
                if same {
                    assert(0 <= i < i + 1 && rtc_id_at(rom@, i as int));
                }
            }
            if same {
                is_used = true;
            }
            i = i + 1;
        }
        RTC {
            prev_sck: false,
            sck: false,
            sio: false,
            cs: false,
            is_used,
            write_only: true,
            write_mask: 0b111,
            mode: RtcMode::StartCommand { done: false },
            last_byte: false,
            counter: CLOCK_FREQ,
            date_time: DateTime::new(),
        }
    }

    fn read_parameter(&mut self, parameter: Parameter) -> (r: (u8, Parameter))
        requires
            old(self).wf(),
            read_parameter_ok(parameter),
        ensures
            final(self).wf(),
            (*final(self), r.0, r.1) == read_parameter_spec(*old(self), parameter),
    {
        match parameter {
            Parameter::Control(byte) => {
                self.last_byte = byte == 0;
                (self.date_time.control.read(), Parameter::Control(byte + 1))
            },
            Parameter::DateTime(byte) => {
                self.last_byte = byte == 6;
                (self.date_time.read(byte), Parameter::DateTime(byte + 1))
            },
            Parameter::Time(byte) => {
                self.last_byte = byte == 2;
                (self.date_time.read(byte + 4), Parameter::Time(byte + 1))
            },
            _ => {
                self.date_time = DateTime::new();
                self.last_byte = true;
                (0, Parameter::Reset)
            },
        }
    }

    #[verifier::rlimit(40)]
    fn write_parameter(&mut self, parameter: Parameter, value: u8) -> (r: Parameter)
        requires
            old(self).wf(),
            write_parameter_ok(parameter, value),
        ensures
            final(self).wf(),
            *final(self) == write_parameter_spec(*old(self), parameter, value),
    {
        match parameter {
            Parameter::Control(byte) => {
                self.date_time.control.write(value);
                self.last_byte = byte == 0;
                Parameter::Control(if byte < 255 { byte + 1 } else { byte })
            },
            Parameter::DateTime(byte) => {
                self.date_time.write(byte, value);
                self.last_byte = byte == 6;
                Parameter::DateTime(byte + 1)
            },
            Parameter::Time(byte) => {
                self.date_time.write(byte + 4, value);
                self.last_byte = byte == 2;
                Parameter::Time(byte + 1)
            },
            Parameter::Reset => {
                self.date_time = DateTime::new();
                self.last_byte = false;
                Parameter::Reset
            },
            Parameter::IRQ => {
                self.last_byte = false;
                Parameter::IRQ
            },
        }
    }

    /// A bit of the command, on a falling edge of SCK; the eighth decodes
    /// the command.
    fn set_command_step(&mut self, command: u8, bit: usize)
        requires
            old(self).wf(),
            rtc_step_ok(*old(self)),
            old(self).mode == RtcMode::SetCommand(command, bit),
            falling_edge(*old(self)),
        ensures
            final(self).wf(),
            *final(self) == rtc_step(*old(self)),
    {
        let sio: u8 = if self.sio { 1 } else { 0 };
        if bit == 7 {
            let command = command | sio << 7;
            let nibble = if command % 16 == COMMAND_CODE {
                command / 16
            } else {
                let low = command % 16 / 2;
                let reversed: u8 = match low {
                    0 => 0,
                    1 => 4,
                    2 => 2,
                    3 => 6,
                    4 => 1,
                    5 => 5,
                    6 => 3,
                    _ => 7,
                };
                reversed | command % 2 * 8
            };
            let parameter = Parameter::from(nibble % 8);
            let next = if nibble / 8 != 0 {
                let (byte, next_parameter) = self.read_parameter(parameter);
                RtcMode::ExecCommand(next_parameter, RtcAccess::Read(byte, 0))
            } else {
                RtcMode::ExecCommand(parameter, RtcAccess::Write(0, 0))
            };
            let p = match next {
                RtcMode::ExecCommand(p, _) => p,
                _ => parameter,
            };
            self.mode = if p == Parameter::Reset || p == Parameter::IRQ {
                RtcMode::EndCommand
            } else {
                next
            };
        } else {
            self.mode = RtcMode::SetCommand(command | sio << (bit as u8), bit + 1);
        }
    }

    /// A bit of a read, on a falling edge of SCK: out on SIO, least
    /// significant first.
    fn exec_read_step(&mut self, parameter: Parameter, byte: u8, bit: usize)
        requires
            old(self).wf(),
            rtc_step_ok(*old(self)),
            old(self).mode == RtcMode::ExecCommand(parameter, RtcAccess::Read(byte, bit)),
            falling_edge(*old(self)),
        ensures
            final(self).wf(),
            *final(self) == rtc_step(*old(self)),
    {
        if bit == 7 {
            let done = self.last_byte;
            self.sio = byte % 2 == 1;
            if done {
                self.mode = RtcMode::EndCommand;
            } else {
                let (parameter_byte, next_parameter) = self.read_parameter(parameter);
                self.mode = RtcMode::ExecCommand(next_parameter, RtcAccess::Read(parameter_byte, 0));
            }
        } else {
            self.sio = byte % 2 == 1;
            self.mode = RtcMode::ExecCommand(parameter, RtcAccess::Read(byte / 2, bit + 1));
        }
    }

    /// A bit of a write, on a falling edge of SCK: in from SIO, least
    /// significant first; the eighth writes the byte.
    fn exec_write_step(&mut self, parameter: Parameter, byte: u8, bit: usize)
        requires
            old(self).wf(),
            rtc_step_ok(*old(self)),
            old(self).mode == RtcMode::ExecCommand(parameter, RtcAccess::Write(byte, bit)),
            falling_edge(*old(self)),
        ensures
            final(self).wf(),
            *final(self) == rtc_step(*old(self)),
    {
        let sio: u8 = if self.sio { 1 } else { 0 };
        if bit == 7 {
            let done = self.last_byte;
            self.write_parameter(parameter, byte | sio << 7);
            self.mode = if done {
                RtcMode::EndCommand
            } else {
                RtcMode::ExecCommand(parameter, RtcAccess::Write(byte + 1, 0))
            };
        } else {
            self.mode = RtcMode::ExecCommand(parameter, RtcAccess::Write(byte | sio << (bit as u8), bit + 1));
        }
    }

    pub fn set_data0(&mut self, value: bool)
        requires
            old(self).write_mask & 1 == 1,
        ensures
            *final(self) == (RTC { prev_sck: old(self).sck, sck: value, ..*old(self) }),
    {
        self.prev_sck = self.sck;
        self.sck = value;
    }

    pub fn set_data1(&mut self, value: bool)
        requires
            (old(self).write_mask >> 1u8) & 1 == 1,
        ensures
            *final(self) == (RTC { sio: value, ..*old(self) }),
    {
        self.sio = value;
    }

    pub fn set_data2(&mut self, value: bool)
        requires
            (old(self).write_mask >> 2u8) & 1 == 1,
        ensures
            *final(self) == (RTC { cs: value, ..*old(self) }),
    {
        self.cs = value;
    }

    /// Pin 3 is not connected: it must not be an output.
    pub fn set_data3(&mut self, value: bool)
        requires
            (old(self).write_mask >> 3u8) & 1 == 0,
        ensures
            *final(self) == *old(self),
    {
    }

    /// The port register at `byte`: the data pins that are inputs, the
    /// direction mask and the control register.
    pub open spec fn read_spec(&self, byte: u8) -> u8 {
        if byte == 0 {
            (if (self.write_mask & 1) == 0 && self.sck { 1u8 } else { 0 }) | (if (self.write_mask >> 1u8) & 1 == 0
                && self.sio {
                2u8
            } else {
                0
            }) | (if (self.write_mask >> 2u8) & 1 == 0 && self.cs { 4u8 } else { 0 })
        } else if byte == 2 {
            self.write_mask
        } else if byte == 4 {
            if self.write_only { 1 } else { 0 }
        } else {
            0
        }
    }

    /// The clock after a write of `value` to the data register: the pins
    /// that are outputs take their bits, then the protocol steps.
    pub open spec fn with_pins(self, value: u8) -> RTC {
        let m = self.write_mask;
        let r0 = if m & 1 == 1 { RTC { prev_sck: self.sck, sck: value & 1 == 1, ..self } } else { self };
        let r1 = if (m >> 1u8) & 1 == 1 { RTC { sio: (value >> 1u8) & 1 == 1, ..r0 } } else { r0 };
        if (m >> 2u8) & 1 == 1 { RTC { cs: (value >> 2u8) & 1 == 1, ..r1 } } else { r1 }
    }
}

impl GPIO for RTC {
    open spec fn inv(&self) -> bool {
        self.wf()
    }

    open spec fn step_ok(&self) -> bool {
        rtc_step_ok(*self)
    }

    /// Writes to the data register need pin 3 to be an input, and the step
    /// that follows to be defined.
    open spec fn write_ok(&self, byte: u8, value: u8) -> bool {
        &&& byte < 6
        &&& byte == 0 ==> (self.write_mask >> 3u8) & 1 == 0 && rtc_step_ok(self.with_pins(value))
    }

    /// Counts one cycle of the system clock; every `CLOCK_FREQ + 1` cycles
    /// the time moves on by a second.
    fn clock(&mut self)
        ensures
            !old(self).is_used ==> *final(self) == *old(self),
            old(self).is_used && old(self).counter == 0 ==> *final(self) == (RTC {
                counter: CLOCK_FREQ,
                date_time: old(self).date_time.tick(),
                ..*old(self)
            }),
            old(self).is_used && old(self).counter != 0 ==> *final(self) == (RTC {
                counter: (old(self).counter - 1) as usize,
                ..*old(self)
            }),
    {
        if !self.is_used {
            return;
        }
        if self.counter == 0 {
            self.counter = CLOCK_FREQ;
            if self.date_time.second.inc() {
                if self.date_time.minute.inc() {
                    if self.date_time.hour.inc() {
                        self.date_time.day_of_week.inc();
                        if self.date_time.day.inc_with_max(30) {
                            if self.date_time.month.inc() {
                                self.date_time.year.inc();
                            }
                        }
                    }
                }
            }
        } else {
            self.counter = self.counter - 1;
        }
    }

    /// One step of the serial protocol, after the pins changed.
    fn process_write(&mut self)
        ensures
            *final(self) == rtc_step(*old(self)),
    {
        assert(self.step_ok() ==> rtc_step_ok(*self));
        assert(self.inv() ==> self.wf());
        match self.mode {
            RtcMode::StartCommand { done: false } => {
                self.mode = RtcMode::StartCommand { done: true };
            },
            RtcMode::StartCommand { done: true } => {
                if self.cs && self.sck {
                    self.mode = RtcMode::SetCommand(0, 0);
                }
            },
            RtcMode::SetCommand(command, bit) => {
                if self.prev_sck && !self.sck {
                    self.set_command_step(command, bit);
                }
            },
            RtcMode::ExecCommand(parameter, RtcAccess::Read(byte, bit)) => {
                if self.prev_sck && !self.sck {
                    self.exec_read_step(parameter, byte, bit);
                }
            },
            RtcMode::ExecCommand(parameter, RtcAccess::Write(byte, bit)) => {
                if self.prev_sck && !self.sck {
                    self.exec_write_step(parameter, byte, bit);
                }
            },
            RtcMode::EndCommand => {
                if !self.cs && self.sck {
                    self.mode = RtcMode::StartCommand { done: false };
                }
            },
        }
    }

    fn read(&self, byte: u8) -> (r: u8)
        ensures
            r == self.read_spec(byte),
    {
        match byte {
            0 => {
                let m = self.write_mask;
                let a = if m & 0x1 == 0 && self.sck { 1u8 } else { 0 };
                let b = if (m >> 1) & 0x1 == 0 && self.sio { 2u8 } else { 0 };
                let c = if (m >> 2) & 0x1 == 0 && self.cs { 4u8 } else { 0 };
                a | b | c
            },
            2 => self.write_mask,
            4 => self.write_only as u8,
            _ => 0,
        }
    }

    #[verifier::rlimit(40)]
    fn write(&mut self, byte: u8, value: u8)
        ensures
            byte == 0 ==> *final(self) == rtc_step(old(self).with_pins(value)),
            byte == 2 ==> *final(self) == (RTC { write_mask: value & 0xF, ..*old(self) }),
            byte == 4 ==> *final(self) == (RTC { write_only: value & 1 == 0, ..*old(self) }),
            byte != 0 && byte != 2 && byte != 4 ==> *final(self) == *old(self),
    {
        match byte {
            0 => {
                proof {
                    let m = old(self).write_mask;
                    assert(((m >> 0u8) & 1 != 0) == (m & 1 == 1) && ((m >> 1u8) & 1 != 0) == ((m >> 1u8) & 1 == 1) && ((
                    m >> 2u8) & 1 != 0) == ((m >> 2u8) & 1 == 1) && ((m >> 3u8) & 1 != 0) == ((m >> 3u8) & 1 == 1))
                        by (bit_vector);
                }
                if self.can_write(0) {
                    self.set_data0(value & 0x1 == 1);
                }
                if self.can_write(1) {
                    self.set_data1(value >> 1 & 0x1 == 1);
                }
                if self.can_write(2) {
                    self.set_data2(value >> 2 & 0x1 == 1);
                }
                if self.can_write(3) {
                    self.set_data3(value >> 3 & 0x1 == 1);
                }
                assert(*self == old(self).with_pins(value));
                self.process_write();
            },
            2 => self.set_write_mask(value & 0xF),
            4 => self.set_write_only(value & 0x1 == 0),
            _ => {},
        }
    }

    fn data0(&self) -> (r: bool)
        ensures
            r == self.sck,
    {
        self.sck
    }

    fn data1(&self) -> (r: bool)
        ensures
            r == self.sio,
    {
        self.sio
    }

    fn data2(&self) -> (r: bool)
        ensures
            r == self.cs,
    {
        self.cs
    }

    fn data3(&self) -> (r: bool)
        ensures
            !r,
    {
        false
    }

    fn is_used(&self) -> (r: bool)
        ensures
            r == self.is_used,
    {
        self.is_used
    }

    fn write_mask(&self) -> (r: u8)
        ensures
            r == self.write_mask,
    {
        self.write_mask
    }

    fn can_write(&self, bit: u8) -> (r: bool)
        ensures
            bit < 8 ==> r == ((self.write_mask >> bit) & 1 != 0),
    {
        if bit < 8 { self.write_mask >> bit & 0x1 != 0 } else { false }
    }

    fn set_write_mask(&mut self, value: u8)
        ensures
            *final(self) == (RTC { write_mask: value, ..*old(self) }),
    {
        self.write_mask = value;
    }

    fn write_only(&self) -> (r: bool)
        ensures
            r == self.write_only,
    {
        self.write_only
    }

    fn set_write_only(&mut self, value: bool)
        ensures
            *final(self) == (RTC { write_only: value, ..*old(self) }),
    {
        self.write_only = value;
    }
}

} // verus!
