use vstd::prelude::*;

verus! {

/// The registers that instructions name.
#[derive(Clone, Copy, Debug, PartialEq, Eq, Structural)]
pub enum Reg {
    R0,
    R1,
    R2,
    R3,
    R4,
    R5,
    R6,
    R7,
    R8,
    R9,
    R10,
    R11,
    R12,
    R13,
    R14,
    R15,
    CPSR,
    SPSR,
}

/// The processor modes.
#[derive(Clone, Copy, Debug, PartialEq, Eq, Structural)]
pub enum Mode {
    USR,
    FIQ,
    IRQ,
    SVC,
    ABT,
    SYS,
    UND,
}

pub const FLAG_N: u32 = 31;
pub const FLAG_Z: u32 = 30;
pub const FLAG_C: u32 = 29;
pub const FLAG_V: u32 = 28;
pub const FLAG_I: u32 = 7;
pub const FLAG_F: u32 = 6;
pub const FLAG_T: u32 = 5;

/// The mode field of a status register for each mode.
pub open spec fn mode_bits(mode: Mode) -> u32 {
    match mode {
        Mode::USR => 0x10,
        Mode::FIQ => 0x11,
        Mode::IRQ => 0x12,
        Mode::SVC => 0x13,
        Mode::ABT => 0x17,
        Mode::SYS => 0x1F,
        Mode::UND => 0x1B,
    }
}

/// The mode that a 5-bit mode field encodes, if any.
pub open spec fn mode_of(bits: u32) -> Option<Mode> {
    if bits == 0x10 {
        Some(Mode::USR)
    } else if bits == 0x11 {
        Some(Mode::FIQ)
    } else if bits == 0x12 {
        Some(Mode::IRQ)
    } else if bits == 0x13 {
        Some(Mode::SVC)
    } else if bits == 0x17 {
        Some(Mode::ABT)
    } else if bits == 0x1F {
        Some(Mode::SYS)
    } else if bits == 0x1B {
        Some(Mode::UND)
    } else {
        None
    }
}

/// Whether a status register value holds a valid mode.
pub open spec fn valid_psr(psr: u32) -> bool {
    mode_of(psr & 0x1F) is Some
}

pub open spec fn psr_mode(psr: u32) -> Mode {
    mode_of(psr & 0x1F)->Some_0
}

/// Whether bit `bit` of `psr` is set.
pub open spec fn flag(psr: u32, bit: u32) -> bool {
    psr & (1u32 << bit) != 0
}

/// `psr` with bit `bit` set to `value`.
pub open spec fn with_flag(psr: u32, bit: u32, value: bool) -> u32 {
    if value {
        psr | (1u32 << bit)
    } else {
        psr & !(1u32 << bit)
    }
}

/// `psr` with its mode field replaced by the encoding of `mode`.
pub open spec fn with_mode(psr: u32, mode: Mode) -> u32 {
    psr & !0x1Fu32 | mode_bits(mode)
}

/// Register numbering: the index among the 30 banked general registers that
/// register `r` (0 to 14) names in mode `mode`.
///  0..=14: user and system R0-R14, 15..=21: FIQ R8-R14, 22/23: SVC R13/R14,
///  24/25: ABT R13/R14, 26/27: IRQ R13/R14, 28/29: UND R13/R14.
pub open spec fn bank_index(mode: Mode, r: int) -> int {
    if r < 8 {
        r
    } else if r < 13 {
        if mode == Mode::FIQ {
            r + 7
        } else {
            r
        }
    } else {
        match mode {
            Mode::FIQ => r + 7,
            Mode::SVC => r + 9,
            Mode::ABT => r + 11,
            Mode::IRQ => r + 13,
            Mode::UND => r + 15,
            _ => r,
        }
    }
}

/// The saved status register slot of a mode, for the modes that have one.
pub open spec fn spsr_index(mode: Mode) -> Option<int> {
    match mode {
        Mode::FIQ => Some(0),
        Mode::SVC => Some(1),
        Mode::ABT => Some(2),
        Mode::IRQ => Some(3),
        Mode::UND => Some(4),
        _ => None,
    }
}

pub open spec fn reg_number(reg: Reg) -> int {
    match reg {
        Reg::R0 => 0,
        Reg::R1 => 1,
        Reg::R2 => 2,
        Reg::R3 => 3,
        Reg::R4 => 4,
        Reg::R5 => 5,
        Reg::R6 => 6,
        Reg::R7 => 7,
        Reg::R8 => 8,
        Reg::R9 => 9,
        Reg::R10 => 10,
        Reg::R11 => 11,
        Reg::R12 => 12,
        Reg::R13 => 13,
        Reg::R14 => 14,
        Reg::R15 => 15,
        Reg::CPSR => 16,
        Reg::SPSR => 17,
    }
}

/// The abstract state of the register file.
#[verifier::ext_equal]
pub struct RegsView {
    pub gprs: Seq<u32>,
    pub pc: u32,
    pub cpsr: u32,
    pub spsr: Seq<u32>,
}

impl RegsView {
    pub open spec fn wf(self) -> bool {
        &&& self.gprs.len() == 30
        &&& self.spsr.len() == 5
        &&& valid_psr(self.cpsr)
    }

    pub open spec fn mode(self) -> Mode {
        psr_mode(self.cpsr)
    }

    /// Register `i` (0 to 15) as the current mode sees it.
    pub open spec fn reg(self, i: int) -> u32 {
        if i == 15 {
            self.pc
        } else {
            self.gprs[bank_index(self.mode(), i)]
        }
    }

    /// The state after writing register `i` (0 to 15) in the current mode.
    pub open spec fn with_reg(self, i: int, value: u32) -> RegsView {
        if i == 15 {
            RegsView { pc: value, ..self }
        } else {
            RegsView { gprs: self.gprs.update(bank_index(self.mode(), i), value), ..self }
        }
    }

    pub open spec fn has_spsr(self) -> bool {
        spsr_index(self.mode()) is Some
    }

    pub open spec fn spsr_value(self) -> u32 {
        self.spsr[spsr_index(self.mode())->Some_0]
    }

    pub open spec fn with_spsr(self, value: u32) -> RegsView {
        RegsView { spsr: self.spsr.update(spsr_index(self.mode())->Some_0, value), ..self }
    }

    pub open spec fn with_cpsr(self, value: u32) -> RegsView {
        RegsView { cpsr: value, ..self }
    }

    pub open spec fn flag(self, bit: u32) -> bool {
        flag(self.cpsr, bit)
    }

    pub open spec fn with_flag(self, bit: u32, value: bool) -> RegsView {
        RegsView { cpsr: with_flag(self.cpsr, bit, value), ..self }
    }

    pub open spec fn with_pc(self, value: u32) -> RegsView {
        RegsView { pc: value, ..self }
    }

    /// What reading `reg` gives, where the read is defined.
    pub open spec fn get(self, reg: Reg) -> u32 {
        match reg {
            Reg::CPSR => self.cpsr,
            Reg::SPSR => self.spsr_value(),
            _ => self.reg(reg_number(reg)),
        }
    }

    /// The state after writing `value` to `reg`.
    pub open spec fn set(self, reg: Reg, value: u32) -> RegsView {
        match reg {
            Reg::CPSR => self.with_cpsr(value),
            Reg::SPSR => self.with_spsr(value),
            _ => self.with_reg(reg_number(reg), value),
        }
    }

    /// Whether reading or writing `reg` is defined in the current mode.
    pub open spec fn can_access(self, reg: Reg) -> bool {
        reg == Reg::SPSR ==> self.has_spsr()
    }
}

/// The register file of the ARM7TDMI, with the banked registers of each mode.
#[derive(Clone, Copy, Debug, PartialEq, Eq)]
pub struct RegValues {
    pub gprs: [u32; 30],
    pub pc: u32,
    pub cpsr: u32,
    pub spsr: [u32; 5],
}

impl View for RegValues {
    type V = RegsView;

    open spec fn view(&self) -> RegsView {
        RegsView { gprs: self.gprs@, pc: self.pc, cpsr: self.cpsr, spsr: self.spsr@ }
    }
}

pub fn mode_to_bits(mode: Mode) -> (r: u32)
    ensures
        r == mode_bits(mode),
{
    match mode {
        Mode::USR => 0x10,
        Mode::FIQ => 0x11,
        Mode::IRQ => 0x12,
        Mode::SVC => 0x13,
        Mode::ABT => 0x17,
        Mode::SYS => 0x1F,
        Mode::UND => 0x1B,
    }
}

pub(crate) proof fn lemma_with_mode_valid(psr: u32, mode: Mode)
    ensures
        valid_psr(with_mode(psr, mode)),
        psr_mode(with_mode(psr, mode)) == mode,
        forall|b: u32| 5 <= b < 32 ==> flag(with_mode(psr, mode), b) == flag(psr, b),
{
    let m = mode_bits(mode);
    assert(m & 0x1F == m && m <= 0x1F) by {
        assert(m == 0x10 || m == 0x11 || m == 0x12 || m == 0x13 || m == 0x17 || m == 0x1F || m
            == 0x1B);
        assert(forall|x: u32| #![auto] x <= 0x1F ==> x & 0x1F == x) by (bit_vector);
    }
    assert((psr & !0x1Fu32 | m) & 0x1F == m) by (bit_vector)
        requires
            m <= 0x1F,
    ;
    assert(forall|b: u32|
        5 <= b < 32 ==> ((psr & !0x1Fu32 | m) & (1u32 << b) != 0) == (psr & (1u32 << b) != 0))
        by (bit_vector)
        requires
            m <= 0x1F,
    ;
}

proof fn lemma_flag_bits(psr: u32, bit: u32, value: bool)
    requires
        bit < 32,
    ensures
        flag(with_flag(psr, bit, value), bit) == value,
        forall|b: u32| b < 32 && b != bit ==> flag(with_flag(psr, bit, value), b) == flag(psr, b),
        bit >= 5 ==> with_flag(psr, bit, value) & 0x1F == psr & 0x1F,
{
    if value {
        assert((psr | (1u32 << bit)) & (1u32 << bit) != 0) by (bit_vector)
            requires
                bit < 32,
        ;
        assert(forall|b: u32|
            b < 32 && b != bit ==> ((psr | (1u32 << bit)) & (1u32 << b) != 0) == (psr & (1u32
                << b) != 0)) by (bit_vector);
        assert(bit >= 5 ==> (psr | (1u32 << bit)) & 0x1F == psr & 0x1F) by (bit_vector)
            requires
                bit < 32,
        ;
    } else {
        assert((psr & !(1u32 << bit)) & (1u32 << bit) == 0) by (bit_vector)
            requires
                bit < 32,
        ;
        assert(forall|b: u32|
            b < 32 && b != bit ==> ((psr & !(1u32 << bit)) & (1u32 << b) != 0) == (psr & (1u32
                << b) != 0)) by (bit_vector);
        assert(bit >= 5 ==> (psr & !(1u32 << bit)) & 0x1F == psr & 0x1F) by (bit_vector)
            requires
                bit < 32,
        ;
    }
}

/// Setting a flag (bit 5 or above) keeps the mode.
pub proof fn lemma_with_flag_keeps_mode(psr: u32, bit: u32, value: bool)
    requires
        5 <= bit < 32,
    ensures
        with_flag(psr, bit, value) & 0x1F == psr & 0x1F,
        valid_psr(psr) ==> valid_psr(with_flag(psr, bit, value)),
        psr_mode(with_flag(psr, bit, value)) == psr_mode(psr),
{
    lemma_flag_bits(psr, bit, value);
}

/// Reading a flag after writing it gives what was written, and leaves the
/// other flags as they were.
pub proof fn lemma_flag_read_after_write(psr: u32, bit: u32, other: u32, value: bool)
    requires
        bit < 32,
        other < 32,
    ensures
        flag(with_flag(psr, bit, value), bit) == value,
        other != bit ==> flag(with_flag(psr, bit, value), other) == flag(psr, other),
{
    lemma_flag_bits(psr, bit, value);
}


fn bank_idx(mode: Mode, r: usize) -> (i: usize)
    requires
        r < 15,
    ensures
        i == bank_index(mode, r as int),
        i < 30,
{
    if r < 8 {
        r
    } else if r < 13 {
        match mode {
            Mode::FIQ => r + 7,
            _ => r,
        }
    } else {
        match mode {
            Mode::FIQ => r + 7,
            Mode::SVC => r + 9,
            Mode::ABT => r + 11,
            Mode::IRQ => r + 13,
            Mode::UND => r + 15,
            _ => r,
        }
    }
}

fn reg_to_number(reg: Reg) -> (n: u32)
    ensures
        n as int == reg_number(reg),
{
    match reg {
        Reg::R0 => 0,
        Reg::R1 => 1,
        Reg::R2 => 2,
        Reg::R3 => 3,
        Reg::R4 => 4,
        Reg::R5 => 5,
        Reg::R6 => 6,
        Reg::R7 => 7,
        Reg::R8 => 8,
        Reg::R9 => 9,
        Reg::R10 => 10,
        Reg::R11 => 11,
        Reg::R12 => 12,
        Reg::R13 => 13,
        Reg::R14 => 14,
        Reg::R15 => 15,
        Reg::CPSR => 16,
        Reg::SPSR => 17,
    }
}

/// The register file as the BIOS leaves it: system mode, with the stack
/// pointers of the user, supervisor and IRQ modes set up.
pub open spec fn bios_regs() -> RegsView {
    RegsView {
        gprs: Seq::new(30, |i: int| if i == 13 {
            0x0300_7F00u32
        } else if i == 22 {
            0x0300_7FE0u32
        } else if i == 26 {
            0x0300_7FA0u32
        } else {
            0u32
        }),
        pc: 0,
        cpsr: 0x1F,
        spsr: Seq::new(5, |i: int| 0u32),
    }
}

impl RegValues {
    /// The register file as the BIOS leaves it: system mode, with the stack
    /// pointers of the user, supervisor and IRQ modes set up.
    pub fn new() -> (r: RegValues)
        ensures
            r@.wf(),
            r@.mode() == Mode::SYS,
            r@.cpsr == 0x1F,
            r@.pc == 0,
            r@.reg(13) == 0x0300_7F00,
            forall|i: int| 0 <= i < 13 ==> #[trigger] r@.reg(i) == 0,
            r@.reg(14) == 0,
            r@.gprs[22] == 0x0300_7FE0,
            r@.gprs[26] == 0x0300_7FA0,
            forall|i: int| 0 <= i < 30 && i != 13 && i != 22 && i != 26 ==> #[trigger] r@.gprs[i] == 0,
            forall|i: int| 0 <= i < 5 ==> #[trigger] r@.spsr[i] == 0,
            r@ == bios_regs(),
    {
        let mut gprs = [0u32; 30];
        gprs[13] = 0x0300_7F00;
        gprs[22] = 0x0300_7FE0;
        gprs[26] = 0x0300_7FA0;
        let r = RegValues { gprs, pc: 0, cpsr: 0x1F, spsr: [0u32; 5] };
        assert((0x1Fu32 & 0x1F) == 0x1F) by (bit_vector);
        assert(r@ =~= bios_regs());
        r
    }

    /// The same register file, with the program counter at the start of the
    /// cartridge ROM, where execution begins when the BIOS is skipped.
    pub fn no_bios() -> (r: RegValues)
        ensures
            r@.wf(),
            r@.mode() == Mode::SYS,
            r@.cpsr == 0x1F,
            r@.pc == 0x0800_0000,
            r@.reg(13) == 0x0300_7F00,
            forall|i: int| 0 <= i < 13 ==> #[trigger] r@.reg(i) == 0,
            r@.reg(14) == 0,
            r@ == bios_regs().with_pc(0x0800_0000),
    {
        let mut r = RegValues::new();
        r.pc = 0x0800_0000;
        r
    }

    pub fn get_mode(&self) -> (m: Mode)
        requires
            self@.wf(),
        ensures
            m == self@.mode(),
    {
        let bits = self.cpsr & 0x1F;
        if bits == 0x10 {
            Mode::USR
        } else if bits == 0x11 {
            Mode::FIQ
        } else if bits == 0x12 {
            Mode::IRQ
        } else if bits == 0x13 {
            Mode::SVC
        } else if bits == 0x17 {
            Mode::ABT
        } else if bits == 0x1F {
            Mode::SYS
        } else {
            Mode::UND
        }
    }

    /// Register `i` (0 to 15) of the current mode.
    pub fn get_reg_i(&self, i: u32) -> (r: u32)
        requires
            self@.wf(),
            i < 16,
        ensures
            r == self@.reg(i as int),
    {
        if i == 15 {
            self.pc
        } else {
            let mode = self.get_mode();
            self.gprs[bank_idx(mode, i as usize)]
        }
    }

    /// Writes register `i` (0 to 15) of the current mode.
    pub fn set_reg_i(&mut self, i: u32, value: u32)
        requires
            old(self)@.wf(),
            i < 16,
        ensures
            final(self)@ == old(self)@.with_reg(i as int, value),
            final(self)@.wf(),
    {
        if i == 15 {
            self.pc = value;
        } else {
            let mode = self.get_mode();
            let idx = bank_idx(mode, i as usize);
            self.gprs[idx] = value;
        }
        assert(self@ =~= old(self)@.with_reg(i as int, value));
    }

    pub fn get_reg(&self, reg: Reg) -> (r: u32)
        requires
            self@.wf(),
            self@.can_access(reg),
        ensures
            r == self@.get(reg),
    {
        match reg {
            Reg::CPSR => self.cpsr,
            Reg::SPSR => {
                let mode = self.get_mode();
                match mode {
                    Mode::FIQ => self.spsr[0],
                    Mode::SVC => self.spsr[1],
                    Mode::ABT => self.spsr[2],
                    Mode::IRQ => self.spsr[3],
                    _ => self.spsr[4],
                }
            },
            _ => self.get_reg_i(reg_to_number(reg)),
        }
    }

    pub fn set_reg(&mut self, reg: Reg, value: u32)
        requires
            old(self)@.wf(),
            old(self)@.can_access(reg),
            reg == Reg::CPSR ==> valid_psr(value),
        ensures
            final(self)@ == old(self)@.set(reg, value),
            final(self)@.wf(),
    {
        match reg {
            Reg::CPSR => self.cpsr = value,
            Reg::SPSR => {
                let mode = self.get_mode();
                let idx: usize = match mode {
                    Mode::FIQ => 0,
                    Mode::SVC => 1,
                    Mode::ABT => 2,
                    Mode::IRQ => 3,
                    _ => 4,
                };
                self.spsr[idx] = value;
            },
            _ => self.set_reg_i(reg_to_number(reg), value),
        }
        assert(self@ =~= old(self)@.set(reg, value));
    }

    pub fn get_pc(&self) -> (r: u32)
        ensures
            r == self@.pc,
    {
        self.pc
    }

    pub fn set_pc(&mut self, value: u32)
        ensures
            final(self)@ == old(self)@.with_pc(value),
    {
        self.pc = value;
        assert(self@ =~= old(self)@.with_pc(value));
    }

    fn get_flag(&self, bit: u32) -> (r: bool)
        requires
            bit < 32,
        ensures
            r == self@.flag(bit),
    {
        self.cpsr & (1u32 << bit) != 0
    }

    fn set_flag(&mut self, bit: u32, value: bool)
        requires
            5 <= bit < 32,
        ensures
            final(self)@ == old(self)@.with_flag(bit, value),
            old(self)@.wf() ==> final(self)@.wf(),
            final(self)@.mode() == old(self)@.mode(),
    {
        if value {
            self.cpsr = self.cpsr | (1u32 << bit);
        } else {
            self.cpsr = self.cpsr & !(1u32 << bit);
        }
        proof {
            lemma_with_flag_keeps_mode(old(self).cpsr, bit, value);
        }
        assert(self@ =~= old(self)@.with_flag(bit, value));
    }

    pub fn get_n(&self) -> (r: bool)
        ensures
            r == self@.flag(FLAG_N),
    {
        self.get_flag(FLAG_N)
    }

    pub fn get_z(&self) -> (r: bool)
        ensures
            r == self@.flag(FLAG_Z),
    {
        self.get_flag(FLAG_Z)
    }

    pub fn get_c(&self) -> (r: bool)
        ensures
            r == self@.flag(FLAG_C),
    {
        self.get_flag(FLAG_C)
    }

    pub fn get_v(&self) -> (r: bool)
        ensures
            r == self@.flag(FLAG_V),
    {
        self.get_flag(FLAG_V)
    }

    pub fn get_i(&self) -> (r: bool)
        ensures
            r == self@.flag(FLAG_I),
    {
        self.get_flag(FLAG_I)
    }

    pub fn get_f(&self) -> (r: bool)
        ensures
            r == self@.flag(FLAG_F),
    {
        self.get_flag(FLAG_F)
    }

    pub fn get_t(&self) -> (r: bool)
        ensures
            r == self@.flag(FLAG_T),
    {
        self.get_flag(FLAG_T)
    }

    pub fn set_n(&mut self, value: bool)
        ensures
            final(self)@ == old(self)@.with_flag(FLAG_N, value),
            old(self)@.wf() ==> final(self)@.wf(),
            final(self)@.mode() == old(self)@.mode(),
    {
        self.set_flag(FLAG_N, value)
    }

    pub fn set_z(&mut self, value: bool)
        ensures
            final(self)@ == old(self)@.with_flag(FLAG_Z, value),
            old(self)@.wf() ==> final(self)@.wf(),
            final(self)@.mode() == old(self)@.mode(),
    {
        self.set_flag(FLAG_Z, value)
    }

    pub fn set_c(&mut self, value: bool)
        ensures
            final(self)@ == old(self)@.with_flag(FLAG_C, value),
            old(self)@.wf() ==> final(self)@.wf(),
            final(self)@.mode() == old(self)@.mode(),
    {
        self.set_flag(FLAG_C, value)
    }

    pub fn set_v(&mut self, value: bool)
        ensures
            final(self)@ == old(self)@.with_flag(FLAG_V, value),
            old(self)@.wf() ==> final(self)@.wf(),
            final(self)@.mode() == old(self)@.mode(),
    {
        self.set_flag(FLAG_V, value)
    }

    pub fn set_i(&mut self, value: bool)
        ensures
            final(self)@ == old(self)@.with_flag(FLAG_I, value),
            old(self)@.wf() ==> final(self)@.wf(),
            final(self)@.mode() == old(self)@.mode(),
    {
        self.set_flag(FLAG_I, value)
    }

    pub fn set_f(&mut self, value: bool)
        ensures
            final(self)@ == old(self)@.with_flag(FLAG_F, value),
            old(self)@.wf() ==> final(self)@.wf(),
            final(self)@.mode() == old(self)@.mode(),
    {
        self.set_flag(FLAG_F, value)
    }

    pub fn set_t(&mut self, value: bool)
        ensures
            final(self)@ == old(self)@.with_flag(FLAG_T, value),
            old(self)@.wf() ==> final(self)@.wf(),
            final(self)@.mode() == old(self)@.mode(),
    {
        self.set_flag(FLAG_T, value)
    }

    /// Switches to `mode`, keeping the other bits of the status register.
    pub fn set_mode(&mut self, mode: Mode)
        ensures
            final(self)@ == old(self)@.with_cpsr(with_mode(old(self)@.cpsr, mode)),
            final(self)@.wf(),
            final(self)@.mode() == mode,
    {
        self.cpsr = self.cpsr & !0x1Fu32 | mode_to_bits(mode);
        proof {
            lemma_with_mode_valid(old(self).cpsr, mode);
        }
        assert(self@ =~= old(self)@.with_cpsr(with_mode(old(self)@.cpsr, mode)));
    }

    /// Enters `mode` as an exception does: the status register is saved in
    /// the saved status register of `mode`, then the mode changes.
    pub fn change_mode(&mut self, mode: Mode)
        requires
            spsr_index(mode) is Some,
        ensures
            final(self)@ == old(self)@.with_cpsr(with_mode(old(self)@.cpsr, mode)).with_spsr(
                old(self)@.cpsr,
            ),
            final(self)@.wf(),
            final(self)@.mode() == mode,
    {
        let cpsr = self.cpsr;
        self.set_mode(mode);
        let idx: usize = match mode {
            Mode::FIQ => 0,
            Mode::SVC => 1,
            Mode::ABT => 2,
            Mode::IRQ => 3,
            _ => 4,
        };
        self.spsr[idx] = cpsr;
        assert(self@ =~= old(self)@.with_cpsr(with_mode(old(self)@.cpsr, mode)).with_spsr(
            old(self)@.cpsr,
        ));
    }

    /// Copies the saved status register of the current mode back to the
    /// status register, as returning from an exception does.
    pub fn restore_cpsr(&mut self)
        requires
            old(self)@.wf(),
            old(self)@.has_spsr(),
            valid_psr(old(self)@.spsr_value()),
        ensures
            final(self)@ == old(self)@.with_cpsr(old(self)@.spsr_value()),
            final(self)@.wf(),
    {
        let spsr = self.get_reg(Reg::SPSR);
        self.cpsr = spsr;
        assert(self@ =~= old(self)@.with_cpsr(old(self)@.spsr_value()));
    }
}

} // verus!
