//! The save memories of game paks: detection from the ROM, battery backed
//! SRAM, and the serial EEPROM.
use vstd::prelude::*;
use vstd::arithmetic::power2::{pow2, lemma_pow2_unfold, lemma2_to64};

verus! {

broadcast use crate::cpu::alu::group_masks;

/// The kinds of save memory, by the identification strings that the ROM
/// holds: "EEPROM_V", "SRAM_V", "FLASH_V", "FLASH512_V" and "FLASH1M_V".
#[derive(Clone, Copy, Debug, PartialEq, Eq, Structural)]
pub enum CartBackupType {
    EEPROM,
    SRAM,
    Flash,
    Flash512,
    Flash1M,
}

/// The identification string of the type at position `i` of the list.
pub open spec fn id_string(i: int) -> Seq<u8> {
    if i == 0 {
        seq![0x45u8, 0x45, 0x50, 0x52, 0x4F, 0x4D, 0x5F, 0x56]
    } else if i == 1 {
        seq![0x53u8, 0x52, 0x41, 0x4D, 0x5F, 0x56]
    } else if i == 2 {
        seq![0x46u8, 0x4C, 0x41, 0x53, 0x48, 0x5F, 0x56]
    } else if i == 3 {
        seq![0x46u8, 0x4C, 0x41, 0x53, 0x48, 0x35, 0x31, 0x32, 0x5F, 0x56]
    } else {
        seq![0x46u8, 0x4C, 0x41, 0x53, 0x48, 0x31, 0x4D, 0x5F, 0x56]
    }
}

pub open spec fn type_at(i: int) -> CartBackupType {
    if i == 0 {
        CartBackupType::EEPROM
    } else if i == 1 {
        CartBackupType::SRAM
    } else if i == 2 {
        CartBackupType::Flash
    } else if i == 3 {
        CartBackupType::Flash512
    } else {
        CartBackupType::Flash1M
    }
}

/// Whether identification string `i` starts at `pos` of `rom`.
pub open spec fn id_at(rom: Seq<u8>, pos: int, i: int) -> bool {
    pos + id_string(i).len() <= rom.len() && rom.subrange(pos, pos + id_string(i).len()) == id_string(i)
}

/// The first identification string that starts at `pos`, among the first
/// `k` of the list.
pub open spec fn first_id_at(rom: Seq<u8>, pos: int, k: int) -> Option<CartBackupType>
    decreases k,
{
    if k <= 0 {
        None
    } else {
        match first_id_at(rom, pos, k - 1) {
            Some(t) => Some(t),
            None => if id_at(rom, pos, k - 1) { Some(type_at(k - 1)) } else { None },
        }
    }
}

/// The type that the ROM names: that of the last position where an
/// identification string starts (the first string of the list there).
pub open spec fn backup_type_upto(rom: Seq<u8>, n: int) -> Option<CartBackupType>
    decreases n,
{
    if n <= 0 {
        None
    } else {
        match first_id_at(rom, n - 1, 5) {
            Some(t) => Some(t),
            None => backup_type_upto(rom, n - 1),
        }
    }
}

pub open spec fn backup_type(rom: Seq<u8>) -> Option<CartBackupType> {
    backup_type_upto(rom, rom.len() as int)
}

/// The identification string of position `i` of the list.
fn id_bytes(i: usize) -> (r: Vec<u8>)
    requires
        i < 5,
    ensures
        r@ == id_string(i as int),
{
    let r = if i == 0 {
        vec![0x45u8, 0x45, 0x50, 0x52, 0x4F, 0x4D, 0x5F, 0x56]
    } else if i == 1 {
        vec![0x53u8, 0x52, 0x41, 0x4D, 0x5F, 0x56]
    } else if i == 2 {
        vec![0x46u8, 0x4C, 0x41, 0x53, 0x48, 0x5F, 0x56]
    } else if i == 3 {
        vec![0x46u8, 0x4C, 0x41, 0x53, 0x48, 0x35, 0x31, 0x32, 0x5F, 0x56]
    } else {
        vec![0x46u8, 0x4C, 0x41, 0x53, 0x48, 0x31, 0x4D, 0x5F, 0x56]
    };
    assert(r@ =~= id_string(i as int));
    r
}

/// Whether `id` starts at `pos` of `rom`.
fn matches_at(rom: &Vec<u8>, pos: usize, id: &Vec<u8>) -> (r: bool)
    ensures
        r == (pos + id@.len() <= rom@.len() && rom@.subrange(pos as int, pos + id@.len()) == id@),
{
    if id.len() > rom.len() || pos > rom.len() - id.len() {
        return false;
    }
    let mut j: usize = 0;
    while j < id.len()
        invariant
            pos + id@.len() <= rom@.len(),
            j <= id@.len(),
            forall|k: int| 0 <= k < j ==> rom@[pos + k] == id@[k],
        decreases id.len() - j,
    {
        assert(pos + j < rom.len());
        if rom[pos + j] != id[j] {
            assert(rom@.subrange(pos as int, pos + id@.len())[j as int] != id@[j as int]);
            return false;
        }
        j = j + 1;
    }
    assert(rom@.subrange(pos as int, pos + id@.len()) =~= id@);
    true
}

/// The save memory that the ROM asks for, if any.
pub fn get_type(rom: &Vec<u8>) -> (r: Option<CartBackupType>)
    ensures
        r == backup_type(rom@),
{
    let mut found: Option<CartBackupType> = None;
    let mut pos: usize = 0;
    while pos < rom.len()
        invariant
            pos <= rom@.len(),
            found == backup_type_upto(rom@, pos as int),
        decreases rom.len() - pos,
    {
        let mut i: usize = 0;
        let mut here: Option<CartBackupType> = None;
        while i < 5
            invariant
                i <= 5,
                pos < rom@.len(),
                here == first_id_at(rom@, pos as int, i as int),
            decreases 5 - i,
        {
            if here.is_none() {
                let id = id_bytes(i);
                if matches_at(rom, pos, &id) {
                    here = Some(
                        if i == 0 {
                            CartBackupType::EEPROM
                        } else if i == 1 {
                            CartBackupType::SRAM
                        } else if i == 2 {
                            CartBackupType::Flash
                        } else if i == 3 {
                            CartBackupType::Flash512
                        } else {
                            CartBackupType::Flash1M
                        },
                    );
                }
            }
            i = i + 1;
        }
        if here.is_some() {
            found = here;
        }
        pos = pos + 1;
    }
    found
}

/// Battery backed SRAM of 32 KiB.
pub struct SRAM {
    pub mem: Vec<u8>,
}

impl SRAM {
    pub open spec fn wf(&self) -> bool {
        self.mem.len() == 0x8000
    }

    pub fn new() -> (r: SRAM)
        ensures
            r.wf(),
            r.mem@ == Seq::new(0x8000, |i: int| 0u8),
    {
        let r = SRAM { mem: vec![0u8; 0x8000] };
        assert(r.mem@ =~= Seq::new(0x8000, |i: int| 0u8));
        r
    }

    /// The byte at `addr`, 0 past the end.
    pub fn read(&self, addr: u32) -> (r: u8)
        requires
            self.wf(),
        ensures
            r == (if addr < 0x8000 { self.mem@[addr as int] } else { 0 }),
    {
        if addr < 0x8000 { self.mem[addr as usize] } else { 0 }
    }

    /// Writes the byte at `addr`; writes past the end are ignored.
    pub fn write(&mut self, addr: u32, value: u8)
        requires
            old(self).wf(),
        ensures
            final(self).wf(),
            final(self).mem@ == (if addr < 0x8000 { old(self).mem@.update(addr as int, value) } else { old(self).mem@ }),
    {
        if addr < 0x8000 {
            self.mem.set(addr as usize, value);
        }
    }
}

/// A serial access: the bits of the address still to come (and the address
/// so far), or the bits of data still to come (and the address in bytes).
#[derive(Clone, Copy, Debug, PartialEq, Eq, Structural)]
pub enum IOMode {
    Address(usize, usize),
    Data(usize, usize),
}

/// The state of the EEPROM's serial protocol.
#[derive(Clone, Copy, Debug, PartialEq, Eq, Structural)]
pub enum EepromMode {
    Request { done: bool },
    Read(IOMode),
    Write(IOMode),
}

/// The serial EEPROM, 512 bytes (6 address bits) or 128 KiB (14 address
/// bits), accessed one bit at a time.
pub struct EEPROM {
    pub mem: Vec<u8>,
    pub mem_size: usize,
    pub is_dirty: bool,
    pub addr_size: usize,
    pub mode: EepromMode,
}

/// Bit `bit_num` of `byte` set to `bit`.
pub open spec fn with_bit(byte: u8, bit_num: int, bit: u8) -> u8 {
    (byte & !((1u8 << bit_num as u8) as u8)) | ((bit << bit_num as u8) as u8)
}

impl EEPROM {
    /// The size is set, and the mode stays within it.
    pub open spec fn wf(&self) -> bool {
        &&& self.addr_size == 6 || self.addr_size == 14
        &&& self.mem_size == pow2((self.addr_size + 3) as nat)
        &&& self.mem.len() == self.mem_size
        &&& match self.mode {
            EepromMode::Request { .. } => true,
            EepromMode::Read(IOMode::Address(c, a)) => c <= self.addr_size && a < pow2((self.addr_size - c) as nat),
            EepromMode::Write(IOMode::Address(c, a)) => c < self.addr_size && a < pow2(
                (self.addr_size - 1 - c) as nat,
            ),
            EepromMode::Read(IOMode::Data(c, a)) => 1 <= c <= 68 && a % 8 == 0 && a + 8 <= self.mem_size,
            EepromMode::Write(IOMode::Data(c, a)) => c <= 64 && a % 8 == 0 && a + 8 <= self.mem_size,
        }
    }

    pub fn new() -> (r: EEPROM)
        ensures
            r.mem@ == Seq::<u8>::empty(),
            r.mem_size == 0,
            !r.is_dirty,
            r.addr_size == 0,
            r.mode == (EepromMode::Request { done: false }),
    {
        EEPROM { mem: Vec::new(), mem_size: 0, is_dirty: false, addr_size: 0, mode: EepromMode::Request { done: false } }
    }

    /// Sizes the EEPROM from the length of the first DMA transfer to it (9
    /// or 17 bits: a read request with 6 or 14 address bits). Its contents
    /// are `saved` when that has the right length, else zeros.
    pub fn init_eeprom(&mut self, dma_count: u32, saved: Vec<u8>)
        requires
            old(self).mem_size == 0 ==> dma_count == 9 || dma_count == 17,
            old(self).mem_size == 0 ==> old(self).mode == (EepromMode::Request { done: false }),
        ensures
            old(self).mem_size != 0 ==> *final(self) == *old(self),
            old(self).mem_size == 0 ==> {
                &&& final(self).wf()
                &&& final(self).addr_size == dma_count - 3
                &&& final(self).mem@ == (if saved@.len() == final(self).mem_size {
                    saved@
                } else {
                    Seq::new(final(self).mem_size as nat, |i: int| 0u8)
                })
                &&& final(self).mode == old(self).mode
                &&& final(self).is_dirty == old(self).is_dirty
            },
    {
        if self.mem_size == 0 {
            proof {
                lemma2_to64();
            }
            self.addr_size = (dma_count - 3) as usize;
            self.mem_size = if dma_count == 9 { 512 } else { 0x20000 };
            if saved.len() == self.mem_size {
                self.mem = saved;
            } else {
                self.mem = vec![0u8; self.mem_size];
                assert(self.mem@ =~= Seq::new(self.mem_size as nat, |i: int| 0u8));
            }
        }
    }

    /// The next bit of a read: 4 bits of 0, then the 64 bits of data, most
    /// significant bit of each byte first.
    pub fn read_eeprom(&mut self, addr: u32) -> (r: u16)
        requires
            old(self).wf(),
            old(self).mode matches EepromMode::Read(IOMode::Data(_, _)),
        ensures
            final(self).wf(),
            final(self).mem@ == old(self).mem@,
            final(self).is_dirty == old(self).is_dirty,
            r < 2,
            old(self).mode matches EepromMode::Read(IOMode::Data(c, a)) && {
                &&& c > 64 ==> r == 0 && final(self).mode == EepromMode::Read(IOMode::Data((c - 1) as usize, a))
                &&& c <= 64 ==> r == (old(self).mem@[a + (64 - c) / 8] >> (7 - (64 - c) % 8) as u8) & 1
                &&& c == 1 ==> final(self).mode == (EepromMode::Request { done: false })
                &&& 1 < c <= 64 ==> final(self).mode == EepromMode::Read(IOMode::Data((c - 1) as usize, a))
            },
    {
        match self.mode {
            EepromMode::Read(IOMode::Data(counter, a)) => {
                if counter > 64 {
                    self.mode = EepromMode::Read(IOMode::Data(counter - 1, a));
                    0
                } else {
                    let byte = (64 - counter) / 8;
                    let bit_num = (7 - (64 - counter) % 8) as u8;
                    let b = self.mem[a + byte];
                    let val = (b >> bit_num) & 0x1;
                    self.mode = if counter == 1 {
                        EepromMode::Request { done: false }
                    } else {
                        EepromMode::Read(IOMode::Data(counter - 1, a))
                    };
                    val as u16
                }
            },
            _ => 0,
        }
    }

    /// Takes one bit of a request: the request start, read or write, the
    /// address, and for a write the 64 bits of data and a final 0.
    pub fn write_eeprom(&mut self, addr: u32, value: u16)
        requires
            old(self).wf(),
            !(old(self).mode matches EepromMode::Read(IOMode::Data(_, _))),
            old(self).mode == (EepromMode::Request { done: false }) ==> value & 1 == 1,
            (old(self).mode matches EepromMode::Write(IOMode::Data(0, _))) ==> value & 1 == 0,
        ensures
            final(self).wf(),
            final(self).addr_size == old(self).addr_size,
            ({
                let bit = (value & 1) as usize;
                match old(self).mode {
                    EepromMode::Request { done: false } => final(self).mode == (EepromMode::Request { done: true })
                        && final(self).mem@ == old(self).mem@,
                    EepromMode::Request { done: true } => final(self).mode == (if bit == 1 {
                        EepromMode::Read(IOMode::Address(old(self).addr_size, 0))
                    } else {
                        EepromMode::Write(IOMode::Address((old(self).addr_size - 1) as usize, 0))
                    }) && final(self).mem@ == old(self).mem@,
                    EepromMode::Read(IOMode::Address(c, a)) => final(self).mode == (if c == 0 {
                        EepromMode::Read(IOMode::Data(68, (a * 8) as usize))
                    } else {
                        EepromMode::Read(IOMode::Address((c - 1) as usize, (a * 2 + bit) as usize))
                    }) && final(self).mem@ == old(self).mem@,
                    EepromMode::Write(IOMode::Address(c, a)) => final(self).mode == (if c == 0 {
                        EepromMode::Write(IOMode::Data(64, ((a * 2 + bit) * 8) as usize))
                    } else {
                        EepromMode::Write(IOMode::Address((c - 1) as usize, (a * 2 + bit) as usize))
                    }) && final(self).mem@ == old(self).mem@,
                    EepromMode::Write(IOMode::Data(c, a)) => if c == 0 {
                        final(self).mode == (EepromMode::Request { done: false }) && final(self).mem@ == old(
                            self,
                        ).mem@
                    } else {
                        &&& final(self).mode == EepromMode::Write(IOMode::Data((c - 1) as usize, a))
                        &&& final(self).is_dirty
                        &&& final(self).mem@ == old(self).mem@.update(
                            a + (64 - c) / 8,
                            with_bit(old(self).mem@[a + (64 - c) / 8], 7 - (64 - c) % 8, bit as u8),
                        )
                    },
                    _ => true,
                }
            }),
    {
        let bit = (value & 0x1) as usize;
        let n = self.addr_size;
        proof {
            lemma2_to64();
        }
        let new_mode = match self.mode {
            EepromMode::Request { done: false } => EepromMode::Request { done: true },
            EepromMode::Request { done: true } => {
                if bit == 1 {
                    EepromMode::Read(IOMode::Address(n, 0))
                } else {
                    EepromMode::Write(IOMode::Address(n - 1, 0))
                }
            },
            EepromMode::Read(IOMode::Address(c, a)) => {
                if c == 0 {
                    proof {
                        assert(pow2((n + 3) as nat) == 8 * pow2(n as nat)) by {
                            lemma_pow2_unfold((n + 3) as nat);
                            lemma_pow2_unfold((n + 2) as nat);
                            lemma_pow2_unfold((n + 1) as nat);
                        }
                    }
                    EepromMode::Read(IOMode::Data(68, a * 8))
                } else {
                    proof {
                        lemma_pow2_unfold((n - c + 1) as nat);
                    }
                    EepromMode::Read(IOMode::Address(c - 1, a * 2 + bit))
                }
            },
            EepromMode::Write(IOMode::Address(c, a)) => {
                proof {
                    lemma_pow2_unfold((n - c) as nat);
                }

                if c == 0 {
                    proof {
                        assert(pow2((n + 3) as nat) == 8 * pow2(n as nat)) by {
                            lemma_pow2_unfold((n + 3) as nat);
                            lemma_pow2_unfold((n + 2) as nat);
                            lemma_pow2_unfold((n + 1) as nat);
                        }
                    }
                    EepromMode::Write(IOMode::Data(64, (a * 2 + bit) * 8))
                } else {
                    EepromMode::Write(IOMode::Address(c - 1, a * 2 + bit))
                }
            },
            EepromMode::Write(IOMode::Data(c, a)) => {
                if c == 0 {
                    EepromMode::Request { done: false }
                } else {
                    self.is_dirty = true;
                    let byte = (64 - c) / 8;
                    let bit_num = (7 - (64 - c) % 8) as u8;
                    let old_byte = self.mem[a + byte];
                    self.mem.set(a + byte, old_byte & !(1u8 << bit_num) | (bit as u8) << bit_num);
                    EepromMode::Write(IOMode::Data(c - 1, a))
                }
            },
            EepromMode::Read(IOMode::Data(c, a)) => EepromMode::Read(IOMode::Data(c, a)),
        };
        self.mode = new_mode;
    }
}

/// The save memory of a game pak.
pub enum CartBackup {
    SRAM(SRAM),
    EEPROM(EEPROM),
}

impl CartBackup {
    /// The save memory that the ROM asks for. Only SRAM can be made here:
    /// EEPROM is sized by the first DMA transfer, and flash memories are
    /// not supported.
    pub fn get(rom: &Vec<u8>) -> (r: CartBackup)
        requires
            backup_type(rom@) == Some(CartBackupType::SRAM),
        ensures
            r matches CartBackup::SRAM(s) && s.wf() && s.mem@ == Seq::new(0x8000, |i: int| 0u8),
    {
        let _t = get_type(rom);
        CartBackup::SRAM(SRAM::new())
    }
}

} // verus!
