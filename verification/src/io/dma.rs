//! The four DMA channels and their registers.
use vstd::prelude::*;
use super::IORegister;

verus! {

/// DMASAD and DMADAD: a source or destination address, written byte by
/// byte; its top bits are limited by the memory the channel can reach.
#[derive(Clone, Copy, Debug, PartialEq, Eq, Structural)]
pub struct Address {
    pub addr: u32,
    pub byte3_mask: u32,
}

/// The bits of byte `byte` of a word.
pub open spec fn byte_mask(byte: u8) -> u32 {
    if byte == 0 {
        0xFF
    } else if byte == 1 {
        0xFF00
    } else if byte == 2 {
        0xFF_0000
    } else {
        0xFF00_0000
    }
}

/// `value` moved to byte `byte` of a word.
pub open spec fn at_byte(value: u8, byte: u8) -> u32 {
    if byte == 0 {
        value as u32
    } else if byte == 1 {
        (value as u32) << 8u32
    } else if byte == 2 {
        (value as u32) << 16u32
    } else {
        (value as u32) << 24u32
    }
}

impl Address {
    /// The register after byte `byte` is written with `value`.
    pub open spec fn written(self, byte: u8, value: u8) -> Address {
        Address {
            addr: (self.addr & !byte_mask(byte)) | (at_byte(value, byte) & (if byte == 3 {
                self.byte3_mask
            } else {
                byte_mask(byte)
            })),
            ..self
        }
    }

    pub fn new(any_memory: bool) -> (r: Address)
        ensures
            r.addr == 0,
            r.byte3_mask == (if any_memory { 0x0FF0_0000u32 } else { 0x07F0_0000u32 }),
    {
        Address { addr: 0, byte3_mask: if any_memory { 0x0FF0_0000 } else { 0x07F0_0000 } }
    }
}

impl IORegister for Address {
    open spec fn read_spec(&self, byte: u8) -> u8 {
        0
    }

    open spec fn has_byte(byte: u8) -> bool {
        byte < 4
    }

    open spec fn write_ok(byte: u8, value: u8) -> bool {
        true
    }

    /// The address registers are write only.
    fn read(&self, byte: u8) -> (r: u8)
        ensures
            r == 0,
    {
        0
    }

    fn write(&mut self, byte: u8, value: u8)
        ensures
            final(self).byte3_mask == old(self).byte3_mask,
            final(self).addr == (old(self).addr & !byte_mask(byte)) | (at_byte(value, byte) & (if byte == 3 {
                old(self).byte3_mask
            } else {
                byte_mask(byte)
            })),
    {
        let x = value as u32;
        let (mask, v): (u32, u32) = if byte == 0 {
            (0xFF, x)
        } else if byte == 1 {
            (0xFF00, x << 8)
        } else if byte == 2 {
            (0xFF_0000, x << 16)
        } else {
            (0xFF00_0000, x << 24)
        };
        if byte < 3 {
            self.addr = self.addr & !mask | v & mask;
        } else {
            self.addr = self.addr & !mask | v & self.byte3_mask;
        }
    }
}

/// DMACNT_L: the number of units to transfer; 0 stands for the maximum
/// plus one.
#[derive(Clone, Copy, Debug, PartialEq, Eq, Structural)]
pub struct WordCount {
    pub count: u16,
    pub max: u16,
}

impl WordCount {
    /// The register after byte `byte` is written with `value`.
    pub open spec fn written(self, byte: u8, value: u8) -> WordCount {
        WordCount {
            count: if byte == 0 {
                (self.count & 0xFF00) | value as u16
            } else {
                (self.count & 0x00FF) | ((value as u16) << 8u16 & self.max)
            },
            ..self
        }
    }

    pub fn new(is_16bit: bool) -> (r: WordCount)
        ensures
            r.count == 0,
            r.max == (if is_16bit { 0xFFFFu16 } else { 0x3FFFu16 }),
    {
        WordCount { count: 0, max: if is_16bit { 0xFFFF } else { 0x3FFF } }
    }

    pub fn get_max(&self) -> (r: u32)
        ensures
            r == self.max,
    {
        self.max as u32
    }
}

impl IORegister for WordCount {
    open spec fn read_spec(&self, byte: u8) -> u8 {
        0
    }

    open spec fn has_byte(byte: u8) -> bool {
        byte < 2
    }

    open spec fn write_ok(byte: u8, value: u8) -> bool {
        true
    }

    fn read(&self, byte: u8) -> (r: u8)
        ensures
            r == 0,
    {
        0
    }

    fn write(&mut self, byte: u8, value: u8)
        ensures
            final(self).max == old(self).max,
            final(self).count == (if byte == 0 {
                (old(self).count & 0xFF00) | value as u16
            } else {
                (old(self).count & 0x00FF) | ((value as u16) << 8u16 & old(self).max)
            }),
    {
        let c = self.count;
        let v = value as u16;
        if byte == 0 {
            self.count = (c & 0xFF00) | v;
        } else {
            self.count = (c & 0x00FF) | (v << 8 & self.max);
        }
    }
}

/// DMACNT_H: the control of a channel.
#[derive(Clone, Copy, Debug, PartialEq, Eq, Structural)]
pub struct DMACNT {
    pub dest_addr_ctrl: u8,
    pub src_addr_ctrl: u8,
    pub repeat: bool,
    pub transfer_32: bool,
    pub game_pak_drq: bool,
    pub start_timing: u8,
    pub irq: bool,
    pub enable: bool,
    pub is_dma3: bool,
}

impl DMACNT {
    pub fn new(is_dma3: bool) -> (r: DMACNT)
        ensures
            r == (DMACNT {
                dest_addr_ctrl: 0,
                src_addr_ctrl: 0,
                repeat: false,
                transfer_32: false,
                game_pak_drq: false,
                start_timing: 0,
                irq: false,
                enable: false,
                is_dma3,
            }),
    {
        DMACNT {
            dest_addr_ctrl: 0,
            src_addr_ctrl: 0,
            repeat: false,
            transfer_32: false,
            game_pak_drq: false,
            start_timing: 0,
            irq: false,
            enable: false,
            is_dma3,
        }
    }

    pub open spec fn wf(&self) -> bool {
        self.dest_addr_ctrl < 4 && self.src_addr_ctrl < 4 && self.start_timing < 4
    }
}

impl IORegister for DMACNT {
    open spec fn read_spec(&self, byte: u8) -> u8 {
        if byte == 0 {
            ((self.src_addr_ctrl % 2) * 128 + self.dest_addr_ctrl * 32) as u8
        } else {
            ((if self.enable { 128int } else { 0 }) + (if self.irq { 64int } else { 0 }) + self.start_timing * 16 + (
            if self.transfer_32 {
                4int
            } else {
                0
            }) + (if self.repeat { 2int } else { 0 }) + (if self.src_addr_ctrl >= 2 || self.game_pak_drq {
                1int
            } else {
                0
            })) as u8
        }
    }

    open spec fn has_byte(byte: u8) -> bool {
        byte < 2
    }

    open spec fn write_ok(byte: u8, value: u8) -> bool {
        true
    }

    fn read(&self, byte: u8) -> (r: u8)
        ensures
            self.wf() && byte == 0 ==> r == (self.src_addr_ctrl % 2) * 128 + self.dest_addr_ctrl * 32,
            self.wf() && byte == 1 ==> r == (if self.enable { 128int } else { 0 }) + (if self.irq { 64int } else { 0 })
                + self.start_timing * 16 + (if self.transfer_32 { 4int } else { 0 }) + (if self.repeat {
                2int
            } else {
                0
            }) + (if self.src_addr_ctrl >= 2 || self.game_pak_drq { 1int } else { 0 }),
    {
        if byte == 0 {
            ((self.src_addr_ctrl % 2) as u32 * 128 + self.dest_addr_ctrl as u32 * 32) as u8
        } else {
            let e: u32 = if self.enable { 128 } else { 0 };
            let i: u32 = if self.irq { 64 } else { 0 };
            let w: u32 = if self.transfer_32 { 4 } else { 0 };
            let r: u32 = if self.repeat { 2 } else { 0 };
            let g: u32 = if self.src_addr_ctrl >= 2 || self.game_pak_drq { 1 } else { 0 };
            (e + i + self.start_timing as u32 * 16 + w + r + g) as u8
        }
    }

    fn write(&mut self, byte: u8, value: u8)
        ensures
            final(self).is_dma3 == old(self).is_dma3,
            old(self).wf() ==> final(self).wf(),
            byte == 0 ==> *final(self) == (DMACNT {
                src_addr_ctrl: (old(self).src_addr_ctrl & !1u8) | (value / 128),
                dest_addr_ctrl: (value / 32) % 4,
                ..*old(self)
            }),
            byte == 1 ==> *final(self) == (DMACNT {
                enable: value >= 128,
                irq: (value / 64) % 2 == 1,
                start_timing: (value / 16) % 4,
                game_pak_drq: if old(self).is_dma3 { (value / 8) % 2 == 1 } else { old(self).game_pak_drq },
                transfer_32: (value / 4) % 2 == 1,
                repeat: (value / 2) % 2 == 1,
                src_addr_ctrl: (old(self).src_addr_ctrl & !2u8) | ((value % 2) * 2) as u8,
                ..*old(self)
            }),
    {
        let s = self.src_addr_ctrl;
        assert(s < 4 ==> (s & !1u8) | (value / 128) < 4 && (s & !2u8) | (((value % 2) * 2) as u8) < 4) by (bit_vector);
        if byte == 0 {
            self.src_addr_ctrl = (s & !0x1) | value / 128;
            self.dest_addr_ctrl = value / 32 % 4;
        } else {
            self.enable = value >= 128;
            self.irq = value / 64 % 2 == 1;
            self.start_timing = value / 16 % 4;
            if self.is_dma3 {
                self.game_pak_drq = value / 8 % 2 == 1;
            }
            self.transfer_32 = value / 4 % 2 == 1;
            self.repeat = value / 2 % 2 == 1;
            self.src_addr_ctrl = (s & !0x2) | value % 2 * 2;
        }
    }
}

/// The FIFO of Direct Sound A.
pub const FIFO_A_ADDR: u32 = 0x40000A0;
/// The FIFO of Direct Sound B.
pub const FIFO_B_ADDR: u32 = 0x40000A4;

/// A DMA channel: its registers, and the values latched when it was
/// enabled.
#[derive(Clone, Copy)]
pub struct DMAChannel {
    pub num: usize,
    pub sad_latch: u32,
    pub dad_latch: u32,
    pub count_latch: u32,
    pub sad: Address,
    pub dad: Address,
    pub count: WordCount,
    pub cnt: DMACNT,
}

impl DMAChannel {
    pub open spec fn wf(&self) -> bool {
        self.num < 4 && self.cnt.wf()
    }

    /// Whether the channel transfers now: it is enabled and its start timing
    /// is immediate, VBlank or HBlank as they occur, or (channels 1 and 2)
    /// a request of the sound FIFO that it writes to.
    pub open spec fn wants_transfer(&self, hblank_called: bool, vblank_called: bool, fifo_req: Seq<bool>) -> bool {
        if !self.cnt.enable {
            false
        } else if self.cnt.start_timing == 0 {
            true
        } else if self.cnt.start_timing == 1 {
            vblank_called
        } else if self.cnt.start_timing == 2 {
            hblank_called
        } else if self.num == 1 || self.num == 2 {
            fifo_req[0] && self.dad.addr == FIFO_A_ADDR || fifo_req[1] && self.dad.addr == FIFO_B_ADDR
        } else {
            false
        }
    }

    /// The channel after byte `byte` of its registers is written: the
    /// addresses, the count or the control; the write that enables the
    /// channel latches the addresses and the count.
    pub open spec fn after_write(self, byte: u8, value: u8) -> DMAChannel {
        if byte < 4 {
            DMAChannel { sad: self.sad.written(byte, value), ..self }
        } else if byte < 8 {
            DMAChannel { dad: self.dad.written((byte - 4) as u8, value), ..self }
        } else if byte < 10 {
            DMAChannel { count: self.count.written((byte - 8) as u8, value), ..self }
        } else if byte == 10 {
            DMAChannel { cnt: self.cnt.written(0, value), ..self }
        } else {
            let c = DMAChannel { cnt: self.cnt.written(1, value), ..self };
            if !self.cnt.enable && value >= 128 {
                DMAChannel {
                    sad_latch: self.sad.addr,
                    dad_latch: self.dad.addr,
                    count_latch: DMAChannel::latched_count(self.count),
                    ..c
                }
            } else {
                c
            }
        }
    }

    /// The number of units that a transfer of `count` moves.
    pub open spec fn latched_count(count: WordCount) -> u32 {
        if count.count == 0 { (count.max + 1) as u32 } else { count.count as u32 }
    }

    pub fn new(num: usize, src_any_memory: bool, dest_any_memory: bool, count_is16bit: bool) -> (r: DMAChannel)
        ensures
            r.num == num,
            r.sad_latch == 0 && r.dad_latch == 0 && r.count_latch == 0,
            r.sad.addr == 0 && r.sad.byte3_mask == (if src_any_memory { 0x0FF0_0000u32 } else { 0x07F0_0000u32 }),
            r.dad.addr == 0 && r.dad.byte3_mask == (if dest_any_memory { 0x0FF0_0000u32 } else { 0x07F0_0000u32 }),
            r.count.count == 0 && r.count.max == (if count_is16bit { 0xFFFFu16 } else { 0x3FFFu16 }),
            r.cnt == DMACNT::new_spec(count_is16bit),
            r.cnt.wf(),
    {
        DMAChannel {
            num,
            sad_latch: 0,
            dad_latch: 0,
            count_latch: 0,
            sad: Address::new(src_any_memory),
            dad: Address::new(dest_any_memory),
            count: WordCount::new(count_is16bit),
            cnt: DMACNT::new(count_is16bit),
        }
    }

    pub fn needs_to_transfer(&self, hblank_called: bool, vblank_called: bool, fifo_req: [bool; 2]) -> (r: bool)
        requires
            self.wf(),
        ensures
            r == self.wants_transfer(hblank_called, vblank_called, fifo_req@),
    {
        if !self.cnt.enable {
            return false;
        }
        match self.cnt.start_timing {
            0 => true,
            1 => vblank_called,
            2 => hblank_called,
            _ => {
                if self.num == 1 || self.num == 2 {
                    fifo_req[0] && self.dad.addr == FIFO_A_ADDR || fifo_req[1] && self.dad.addr == FIFO_B_ADDR
                } else {
                    false
                }
            },
        }
    }

    /// Copies the addresses and the count for the transfer to use.
    pub fn latch(&mut self)
        ensures
            final(self).sad_latch == old(self).sad.addr,
            final(self).dad_latch == old(self).dad.addr,
            final(self).count_latch == DMAChannel::latched_count(old(self).count),
            final(self).num == old(self).num,
            final(self).sad == old(self).sad,
            final(self).dad == old(self).dad,
            final(self).count == old(self).count,
            final(self).cnt == old(self).cnt,
    {
        self.sad_latch = self.sad.addr;
        self.dad_latch = self.dad.addr;
        self.count_latch = if self.count.count == 0 { self.count.get_max() + 1 } else { self.count.count as u32 };
    }
}

impl DMACNT {
    /// The register after byte `byte` is written with `value`.
    pub open spec fn written(self, byte: u8, value: u8) -> DMACNT {
        if byte == 0 {
            DMACNT {
                src_addr_ctrl: (self.src_addr_ctrl & !1u8) | (value / 128),
                dest_addr_ctrl: (value / 32) % 4,
                ..self
            }
        } else {
            DMACNT {
                enable: value >= 128,
                irq: (value / 64) % 2 == 1,
                start_timing: (value / 16) % 4,
                game_pak_drq: if self.is_dma3 { (value / 8) % 2 == 1 } else { self.game_pak_drq },
                transfer_32: (value / 4) % 2 == 1,
                repeat: (value / 2) % 2 == 1,
                src_addr_ctrl: (self.src_addr_ctrl & !2u8) | ((value % 2) * 2) as u8,
                ..self
            }
        }
    }

    pub open spec fn new_spec(is_dma3: bool) -> DMACNT {
        DMACNT {
            dest_addr_ctrl: 0,
            src_addr_ctrl: 0,
            repeat: false,
            transfer_32: false,
            game_pak_drq: false,
            start_timing: 0,
            irq: false,
            enable: false,
            is_dma3,
        }
    }
}

impl IORegister for DMAChannel {
    open spec fn read_spec(&self, byte: u8) -> u8 {
        if byte < 10 { 0 } else if byte == 10 { self.cnt.read_spec(0) } else { self.cnt.read_spec(1) }
    }

    open spec fn has_byte(byte: u8) -> bool {
        byte < 12
    }

    open spec fn write_ok(byte: u8, value: u8) -> bool {
        true
    }

    fn read(&self, byte: u8) -> (r: u8)
        ensures
            byte < 10 ==> r == 0,
    {
        match byte {
            0x0 => self.sad.read(0),
            0x1 => self.sad.read(1),
            0x2 => self.sad.read(2),
            0x3 => self.sad.read(3),
            0x4 => self.dad.read(0),
            0x5 => self.dad.read(1),
            0x6 => self.dad.read(2),
            0x7 => self.dad.read(3),
            0x8 => self.count.read(0),
            0x9 => self.count.read(1),
            0xA => self.cnt.read(0),
            _ => self.cnt.read(1),
        }
    }

    /// Writes a byte of the channel's registers; the write that enables
    /// the channel latches them.
    fn write(&mut self, byte: u8, value: u8)
        ensures
            final(self).num == old(self).num,
            old(self).wf() ==> final(self).wf(),
            *final(self) == old(self).after_write(byte, value),
            byte < 4 ==> final(self).sad.addr == (old(self).sad.addr & !byte_mask(byte)) | (at_byte(value, byte) & (
            if byte == 3 {
                old(self).sad.byte3_mask
            } else {
                byte_mask(byte)
            })),
            4 <= byte < 8 ==> final(self).dad.addr == (old(self).dad.addr & !byte_mask((byte - 4) as u8)) | (at_byte(
                value,
                (byte - 4) as u8,
            ) & (if byte == 7 {
                old(self).dad.byte3_mask
            } else {
                byte_mask((byte - 4) as u8)
            })),
            byte == 11 && !old(self).cnt.enable && value >= 128 ==> final(self).sad_latch == old(self).sad.addr
                && final(self).dad_latch == old(self).dad.addr && final(self).count_latch
                == DMAChannel::latched_count(old(self).count),
            byte == 11 ==> final(self).cnt.enable == (value >= 128),
            byte != 11 || old(self).cnt.enable || value < 128 ==> final(self).sad_latch == old(self).sad_latch
                && final(self).dad_latch == old(self).dad_latch && final(self).count_latch == old(self).count_latch,
    {
        match byte {
            0x0 => self.sad.write(0, value),
            0x1 => self.sad.write(1, value),
            0x2 => self.sad.write(2, value),
            0x3 => self.sad.write(3, value),
            0x4 => self.dad.write(0, value),
            0x5 => self.dad.write(1, value),
            0x6 => self.dad.write(2, value),
            0x7 => self.dad.write(3, value),
            0x8 => self.count.write(0, value),
            0x9 => self.count.write(1, value),
            0xA => self.cnt.write(0, value),
            _ => {
                let prev_enable = self.cnt.enable;
                self.cnt.write(1, value);
                if !prev_enable && self.cnt.enable {
                    self.latch();
                }
            },
        }
    }
}

/// The DMA controller.
pub struct DMA {
    pub channels: [DMAChannel; 4],
    pub in_dma: bool,
}

impl DMA {
    pub open spec fn wf(&self) -> bool {
        forall|i: int| 0 <= i < 4 ==> (#[trigger] self.channels@[i]).wf() && self.channels@[i].num == i
    }

    /// The channels as the console has them: only channels 1 to 3 read any
    /// memory, only channels 1 and 3 write any memory, and only channel 3
    /// counts 16 bits.
    pub fn new() -> (r: DMA)
        ensures
            r.wf(),
            !r.in_dma,
            forall|i: int| 0 <= i < 4 ==> !(#[trigger] r.channels@[i]).cnt.enable,
    {
        DMA {
            channels: [
                DMAChannel::new(0, false, false, false),
                DMAChannel::new(1, true, true, false),
                DMAChannel::new(2, true, false, false),
                DMAChannel::new(3, true, true, true),
            ],
            in_dma: false,
        }
    }

    /// Tests `wf`.
    pub fn is_wf(&self) -> (r: bool)
        ensures
            r == self.wf(),
    {
        let c = &self.channels;
        let r = c[0].num == 0 && c[0].cnt.dest_addr_ctrl < 4 && c[0].cnt.src_addr_ctrl < 4 && c[0].cnt.start_timing < 4
            && c[1].num == 1 && c[1].cnt.dest_addr_ctrl < 4 && c[1].cnt.src_addr_ctrl < 4 && c[1].cnt.start_timing < 4
            && c[2].num == 2 && c[2].cnt.dest_addr_ctrl < 4 && c[2].cnt.src_addr_ctrl < 4 && c[2].cnt.start_timing < 4
            && c[3].num == 3 && c[3].cnt.dest_addr_ctrl < 4 && c[3].cnt.src_addr_ctrl < 4 && c[3].cnt.start_timing < 4;
        proof {
            if r {
                assert forall|i: int| 0 <= i < 4 implies #[trigger] self.channels@[i].wf() && self.channels@[i].num
                    == i by {
                    if i == 0 {} else if i == 1 {} else if i == 2 {} else {}
                }
                assert(self.wf());
            } else {
                assert(!(self.channels@[0].wf() && self.channels@[0].num == 0) || !(self.channels@[1].wf()
                    && self.channels@[1].num == 1) || !(self.channels@[2].wf() && self.channels@[2].num == 2)
                    || !(self.channels@[3].wf() && self.channels@[3].num == 3));
                assert(!self.wf());
            }
        }
        r
    }

    /// The first channel that transfers now, or 4 if none does.
    pub fn get_channel_running(&mut self, hblank_called: bool, vblank_called: bool, fifo_req: [bool; 2]) -> (r: usize)
        requires
            old(self).wf(),
        ensures
            *final(self) == *old(self),
            r <= 4,
            r < 4 ==> old(self).channels@[r as int].wants_transfer(hblank_called, vblank_called, fifo_req@),
            forall|j: int|
                0 <= j < r ==> !(#[trigger] old(self).channels@[j]).wants_transfer(
                    hblank_called,
                    vblank_called,
                    fifo_req@,
                ),
    {
        let mut i: usize = 0;
        while i < 4
            invariant
                i <= 4,
                self.wf(),
                forall|j: int|
                    0 <= j < i ==> !(#[trigger] self.channels@[j]).wants_transfer(
                        hblank_called,
                        vblank_called,
                        fifo_req@,
                    ),
            decreases 4 - i,
        {
            if self.channels[i].needs_to_transfer(hblank_called, vblank_called, fifo_req) {
                return i;
            }
            i = i + 1;
        }
        4
    }
}

} // verus!
