use gba_core::bus::{MemoryHandler, IMMU, Cycle};
use gba_core::io::apu::channel::Channel;
use gba_core::io::apu::components::{Envelope, Sweep, Timer};
use gba_core::io::apu::noise::Noise;
use gba_core::io::apu::tone::Tone;
use gba_core::io::apu::wave::Wave;
use gba_core::io::apu::APU;
use gba_core::io::system::IO;
use gba_core::io::{IORegister, MGBALogLevel};
use gba_core::io::ppu::PPU;
use gba_core::mmu::MMU;
use gba_core::gba::{FrameEnd, VisibleMemoryRegion, GBA};
use gba_core::cpu::defined::thumb_defined;
use gba_core::io::interrupt_controller::InterruptRequest;
use gba_core::io::scheduler::{Event, EventType, Scheduler};

fn sram_rom() -> Vec<u8> {
    let mut rom = vec![0u8; 0x200];
    rom[0x100..0x106].copy_from_slice(b"SRAM_V");
    rom
}

fn new_io() -> IO {
    IO::new(vec![0u8; 0x4000], sram_rom())
}

#[test]
fn sound_timer_fires_when_it_reaches_zero() {
    let mut t = Timer::new(3);
    assert!(!t.clock());
    assert!(!t.clock());
    assert!(t.clock());
    assert_eq!(t.counter, 3);
    assert!(!t.clock_with_reload(5));
    assert_eq!(t.counter, 2);
}

#[test]
fn sweep_register_reads_back() {
    let mut s = Sweep::new();
    s.write(0x7F);
    assert_eq!(s.shift, 7);
    assert!(s.negate);
    assert_eq!(s.period, 7);
    assert_eq!(s.read(), 0x7F);
}

#[test]
fn sweep_step_adds_shifted_frequency() {
    let mut s = Sweep::new();
    s.freq = 0x100;
    s.write(0x11);
    s.reload();
    assert!(s.enabled);
    s.clock();
    assert_eq!(s.freq, 0x180);
    assert_eq!(s.freq_shadow, 0x180);
    assert!(s.should_play());
}

#[test]
fn sweep_overflow_silences_channel() {
    let mut s = Sweep::new();
    s.freq = 0x7FF;
    s.write(0x01);
    s.reload();
    assert!(s.freq_overflowed);
    assert!(!s.enabled);
    assert!(!s.should_play());
}

#[test]
fn envelope_rises_to_fifteen_and_stops() {
    let mut e = Envelope::new();
    e.write(0xE9);
    assert_eq!(e.initial_volume, 14);
    assert!(e.inc);
    assert_eq!(e.step_period, 1);
    assert_eq!(e.read(), 0xE9);
    e.reset();
    assert_eq!(e.get_volume(), 14);
    e.clock();
    assert_eq!(e.get_volume(), 15);
    assert!(e.active);
    e.clock();
    assert_eq!(e.get_volume(), 15);
    assert!(!e.active);
    e.clock();
    assert_eq!(e.get_volume(), 15);
}

#[test]
fn envelope_falls_to_zero() {
    let mut e = Envelope::new();
    e.write(0x11);
    e.reset();
    assert_eq!(e.get_volume(), 1);
    e.clock();
    assert_eq!(e.get_volume(), 0);
    e.clock();
    assert!(!e.active);
}

#[test]
fn tone_sample_follows_duty_and_volume() {
    let mut t = Tone::new();
    t.write(2, 0x80);
    t.write(3, 0xF0);
    t.write(5, 0x80);
    assert!(t.is_on());
    assert_eq!(t.generate_sample(), 120);
    assert_eq!(t.read(2), 0x80);
    assert_eq!(t.read(3), 0xF0);
    assert_eq!(t.read(5), 0);
    assert_eq!(t.timer.counter, 16 * 2048);
}

#[test]
fn tone_duty_low_half_is_negative() {
    let mut t = Tone::new();
    t.write(2, 0x00);
    t.write(3, 0xA0);
    t.write(4, 0xFF);
    t.write(5, 0x87);
    assert_eq!(t.sweep.freq, 0x7FF);
    assert_eq!(t.generate_sample(), 80);
    // The wave steps each time the timer fires: 16 cycles at this frequency.
    for _ in 0..16 {
        t.clock();
    }
    assert_eq!(t.duty_pos, 1);
    assert_eq!(t.generate_sample(), -80);
}

#[test]
fn tone_length_counter_stops_channel() {
    let mut t = Tone::new();
    t.write(2, 0x3F);
    t.write(3, 0xF0);
    t.write(5, 0xC0);
    assert_eq!(t.length_counter.length, 1);
    assert!(t.is_on());
    t.length_counter.clock();
    assert!(!t.is_on());
    assert_eq!(t.generate_sample(), 0);
    assert_eq!(t.read(5), 0x40);
}

#[test]
fn wave_ram_access_goes_to_the_other_bank() {
    let mut w = Wave::new();
    w.write_wave_ram(0, 0xAB);
    assert_eq!(w.wave_ram[16], 0xAB);
    assert_eq!(w.wave_ram[0], 0);
    assert_eq!(w.read_wave_ram(0), 0xAB);
    w.write(0, 0x40);
    assert_eq!(w.wave_ram_bank, 1);
    assert_eq!(w.read_wave_ram(0), 0);
    assert_eq!(w.read(0), 0x40);
}

#[test]
fn wave_sample_scales_by_volume() {
    let mut w = Wave::new();
    w.wave_ram[0] = 0xF3;
    w.write(3, 0x20);
    assert_eq!(w.generate_sample(), 120);
    w.write(3, 0x40);
    assert_eq!(w.generate_sample(), 60);
    w.write(3, 0x60);
    assert_eq!(w.generate_sample(), 30);
    w.write(3, 0x80);
    assert_eq!(w.generate_sample(), 90);
    w.write(3, 0x00);
    assert_eq!(w.generate_sample(), 0);
    assert!(!w.is_on());
    w.write(0, 0x80);
    assert!(w.is_on());
}

#[test]
fn noise_shift_register_steps() {
    let mut n = Noise::new();
    assert!(n.is_on());
    for _ in 0..7 {
        n.clock();
    }
    assert_eq!(n.lfsr, 0x7FFF);
    n.clock();
    assert_eq!(n.lfsr, 0x5FFF);
    assert_eq!(n.timer.counter, 32);
}

#[test]
fn noise_register_bytes() {
    let mut n = Noise::new();
    n.write(4, 0x5B);
    assert_eq!(n.ratio, 3);
    assert!(n.counter_width);
    assert_eq!(n.shift, 5);
    assert_eq!(n.read(4), 0x5B);
    n.write(1, 0x80);
    n.write(5, 0x80);
    assert_eq!(n.lfsr, 0x7FFF);
    assert_eq!(n.timer.counter, 64 * 32 * 3);
    assert_eq!(n.generate_sample(), -64);
}

#[test]
fn sound_unit_enable_resets_tones_and_reports_status() {
    let mut apu = APU::new();
    apu.write_register(0x0400_0084, 0x80);
    assert!(apu.master_enable);
    assert_eq!(apu.read_register(0x0400_0084), 0x83);
    assert_eq!(apu.read_register(0x0400_0081), 0x80);
    apu.write_register(0x0400_0090, 0x12);
    assert_eq!(apu.read_register(0x0400_0090), 0x12);
    apu.write_register(0x0400_0084, 0x00);
    assert_eq!(apu.read_register(0x0400_0084), 0x03);
}

#[test]
fn sound_unit_mixes_one_sample_every_512_cycles() {
    let mut apu = APU::new();
    apu.write_register(0x0400_0084, 0x80);
    apu.write_register(0x0400_0080, 0x77);
    apu.write_register(0x0400_0081, 0x11);
    apu.write_register(0x0400_0062, 0x80);
    apu.write_register(0x0400_0063, 0xF0);
    apu.write_register(0x0400_0065, 0x80);
    for _ in 0..511 {
        apu.clock();
    }
    assert_eq!(apu.audio.count, 0);
    apu.clock();
    assert_eq!(apu.audio.count, 2);
    assert_eq!(apu.audio.buffer[0], 8 * 120 * 7);
    assert_eq!(apu.audio.buffer[1], 8 * 120 * 7);
    assert_eq!(apu.sample_clock, 512);
}

#[test]
fn sound_unit_is_idle_while_disabled() {
    let mut apu = APU::new();
    for _ in 0..1024 {
        apu.clock();
    }
    assert_eq!(apu.audio.count, 0);
    assert_eq!(apu.sample_clock, 512);
}

#[test]
fn bus_work_ram_repeats_through_its_region() {
    let mut io = new_io();
    io.write8(0x0200_0010, 0xAB);
    assert_eq!(io.read8(0x0200_0010), 0xAB);
    assert_eq!(io.read8(0x0204_0010), 0xAB);
    io.write16(0x0300_0020, 0xBEEF);
    assert_eq!(io.read16(0x0300_8020), 0xBEEF);
    io.write32(0x0300_0040, 0x1234_5678);
    assert_eq!(io.read32(0x0300_0040), 0x1234_5678);
    assert_eq!(io.read8(0x0300_0041), 0x56);
}

#[test]
fn bus_interrupt_registers() {
    let mut io = new_io();
    io.write8(0x0400_0200, 0xFF);
    io.write8(0x0400_0201, 0xFF);
    assert_eq!(io.read8(0x0400_0200), 0xFF);
    assert_eq!(io.read8(0x0400_0201), 0x3F);
    io.interrupt_controller.request(0x0005);
    assert_eq!(io.read8(0x0400_0202), 0x05);
    io.write8(0x0400_0202, 0x01);
    assert_eq!(io.read8(0x0400_0202), 0x04);
    io.write8(0x0400_0208, 0x03);
    assert_eq!(io.read8(0x0400_0208), 0x01);
}

#[test]
fn bus_waitcnt_reads_back_without_type_flag() {
    let mut io = new_io();
    io.write8(0x0400_0204, 0xFF);
    io.write8(0x0400_0205, 0xFF);
    assert_eq!(io.read8(0x0400_0204), 0xFF);
    assert_eq!(io.read8(0x0400_0205), 0x5F);
}

#[test]
fn bus_sound_registers() {
    let mut io = new_io();
    io.write8(0x0400_0084, 0x80);
    assert_eq!(io.read8(0x0400_0084), 0x83);
    io.write8(0x0400_0083, 0xFF);
    assert_eq!(io.read8(0x0400_0083), 0);
    io.write8(0x0400_0062, 0xC0);
    assert_eq!(io.read8(0x0400_0062), 0xC0);
}

#[test]
fn bus_dma3_copies_halfwords() {
    let mut io = new_io();
    io.write16(0x0200_0000, 0x1122);
    io.write16(0x0200_0002, 0x3344);
    io.write32(0x0400_00D4, 0x0200_0000);
    io.write32(0x0400_00D8, 0x0300_0100);
    io.write16(0x0400_00DC, 2);
    io.write16(0x0400_00DE, 0x8000);
    io.run_dma(false, false, [false, false]);
    assert_eq!(io.read16(0x0300_0100), 0x1122);
    assert_eq!(io.read16(0x0300_0102), 0x3344);
    assert_eq!(io.read8(0x0400_00DF) & 0x80, 0);
}

#[test]
fn bus_clock_advances_display() {
    let mut io = new_io();
    for _ in 0..4 {
        io.inc_clock(Cycle::I, 0, 0);
    }
    assert_eq!(io.ppu.dot, 1);
    assert_eq!(io.cycle, 4);
    io.inc_clock(Cycle::N, 0x0200_0000, 2);
    assert_eq!(io.cycle, 10);
    assert_eq!(io.clocks_ahead, 2);
    assert_eq!(io.ppu.dot, 2);
}

#[test]
fn display_line_advances_after_308_dots() {
    let mut ppu = PPU::new();
    for _ in 0..308 {
        ppu.emulate_dot();
    }
    assert_eq!(ppu.vcount, 1);
    assert_eq!(ppu.dot, 0);
    assert_eq!(ppu.read_register(0x0400_0006), 1);
}

#[test]
fn display_registers_read_back() {
    let mut ppu = PPU::new();
    ppu.write_register(0x0400_0000, 0x03);
    assert_eq!(ppu.read_register(0x0400_0000), 0x03);
    ppu.write_register(0x0400_0008, 0x8D);
    assert_eq!(ppu.read_register(0x0400_0008), 0x8D);
}

#[test]
fn system_bus_read_after_write() {
    let mut mmu = MMU::new(vec![0u8; 0x4000], vec![0u8; 0x100]);
    mmu.write8(0x0300_0004, 0x5A);
    assert_eq!(mmu.read8(0x0300_0004), 0x5A);
    mmu.write8(0x0200_0004, 0xA5);
    assert_eq!(mmu.read8(0x0200_0004), 0xA5);
    assert_eq!(mmu.peek8(0x0300_0004), 0x5A);
}

#[test]
fn scheduler_hands_out_events_when_due() {
    let mut s = Scheduler::new();
    assert_eq!(s.get_next_event(), None);
    s.add(Event { cycle: 0, event_type: EventType::TimerOverflow(1) });
    assert_eq!(s.get_next_event(), Some(EventType::TimerOverflow(1)));
    assert_eq!(s.get_next_event(), None);
    s.cycle = 32768;
    assert_eq!(s.get_next_event(), Some(EventType::FrameSequencer(0)));
    assert_eq!(s.get_next_event(), None);
    s.add(Event { cycle: 32768, event_type: EventType::TimerOverflow(2) });
    s.remove(EventType::TimerOverflow(2));
    assert_eq!(s.get_next_event(), None);
}

#[test]
fn counting_up_timer_overflows_to_reload() {
    let mut s = Scheduler::new();
    let mut t = gba_core::io::timers::Timer::new(1, InterruptRequest { bits: 0x10 });
    t.write(&mut s, 0, 0x34);
    t.write(&mut s, 1, 0x12);
    assert_eq!(t.reload, 0x1234);
    t.write(&mut s, 2, 0x84);
    assert!(t.cnt.count_up && t.cnt.start);
    assert_eq!(t.counter, 0x1234);
    assert!(!t.clock());
    assert_eq!(t.counter, 0x1235);
    t.counter = 0xFFFF;
    assert!(t.clock());
    assert_eq!(t.counter, 0x1234);
    assert_eq!(t.read(&s, 2), 0x84);
}

#[test]
fn prescaled_timer_counts_from_its_start() {
    let mut s = Scheduler::new();
    let mut t = gba_core::io::timers::Timer::new(0, InterruptRequest { bits: 0x08 });
    t.write(&mut s, 1, 0xFF);
    t.write(&mut s, 2, 0x80);
    assert_eq!(t.start_cycle, 1);
    assert_eq!(t.time_till_first_clock, 1);
    assert_eq!(t.timer_len, 0xFF);
    s.cycle = 2;
    assert_eq!(t.read(&s, 0), 0x01);
    assert_eq!(t.read(&s, 1), 0xFF);
    s.cycle = 12;
    assert_eq!(t.read(&s, 0), 0x0B);
    s.cycle = 257;
    assert_eq!(s.get_next_event(), Some(EventType::TimerOverflow(0)));
}

#[test]
fn bus_timer_overflow_requests_interrupt() {
    let mut io = new_io();
    io.write16(0x0400_0100, 0xFF00);
    io.write8(0x0400_0102, 0xC0);
    for _ in 0..100 {
        io.inc_clock(Cycle::I, 0, 0);
    }
    assert_eq!(io.read8(0x0400_0100), 0x63);
    assert_eq!(io.read8(0x0400_0101), 0xFF);
    for _ in 100..256 {
        io.inc_clock(Cycle::I, 0, 0);
    }
    assert_eq!(io.read8(0x0400_0202) & 0x08, 0);
    io.inc_clock(Cycle::I, 0, 0);
    assert_eq!(io.read8(0x0400_0202) & 0x08, 0x08);
    assert_eq!(io.read8(0x0400_0103), 0);
    assert_eq!(io.read8(0x0400_0102), 0xC0);
}

#[test]
fn bus_peek_by_region() {
    let mut io = new_io();
    io.write8(0x0300_0010, 0x77);
    assert_eq!(io.peek_mem(VisibleMemoryRegion::IWRAM, 0x10), 0x77);
    assert_eq!(io.peek_mem(VisibleMemoryRegion::PakROM, 0x100), b'S');
}

#[test]
fn debug_palette_view() {
    let mut ppu = PPU::new();
    ppu.bg_palettes[5] = 0x1234;
    let (pixels, w, h) = ppu.render_palettes();
    assert_eq!((w, h), (128, 128));
    assert_eq!(pixels.len(), 128 * 128);
    assert_eq!(pixels[0], 0x8000);
    assert_eq!(pixels[8 * 5], 0x9234);
    assert_eq!(pixels[7 * 128 + 8 * 5 + 7], 0x9234);
    assert_eq!(pixels[8 * 128 + 8 * 5], 0x8000);
}

#[test]
fn debug_tiles_and_map_views() {
    let mut ppu = PPU::new();
    let (tiles, w, h) = ppu.render_tiles(0, 0, false);
    assert_eq!((w, h), (256, 256));
    assert_eq!(tiles.len(), 256 * 256);
    assert!(tiles.iter().all(|&p| p == 0x8000));
    ppu.vram[0] = 1;
    ppu.vram[32] = 0x03;
    ppu.bg_palettes[3] = 0x0ABC;
    let (map, w, h) = ppu.render_map(0);
    assert_eq!((w, h), (256, 256));
    assert_eq!(map[0], 0x8ABC);
    assert_eq!(map[1], 0);
    let (tiles, _, _) = ppu.render_tiles(0, 0, false);
    assert_eq!(tiles[8], 0x8ABC);
}

#[test]
fn wave_control_reads_back_its_bits() {
    let mut w = Wave::new();
    w.write(0, 0xFF);
    assert_eq!(w.read(0), 0xE0);
    w.write(3, 0xFF);
    assert_eq!(w.read(3), 0x60);
    w.write(5, 0x40);
    assert_eq!(w.read(5), 0x40);
}

#[test]
fn bus_dma_definedness_check() {
    let mut io = new_io();
    assert!(io.dma_transfer_defined(false, false, [false, false]));
    io.write32(0x0400_00D4, 0x0200_0000);
    io.write32(0x0400_00D8, 0x0300_0000);
    io.write16(0x0400_00DC, 1);
    io.write16(0x0400_00DE, 0x8180);
    assert!(!io.dma_transfer_defined(false, false, [false, false]));
}

fn bios_with(word: u32) -> Vec<u8> {
    let mut bios = vec![0u8; 0x4000];
    bios[0..4].copy_from_slice(&word.to_le_bytes());
    bios
}

#[test]
fn console_runs_a_frame_of_a_branch_loop() {
    let mut gba = GBA::new(bios_with(0xEAFF_FFFE), sram_rom());
    assert!(gba.cpu.next_instruction_defined());
    assert_eq!(gba.emulate_frame(), FrameEnd::Done);
    assert!(gba.io.cycle >= 280896);
    assert_eq!(gba.next_frame_cycle, 280896);
    assert_eq!(gba.io.ppu.vcount, 0);
}

#[test]
fn console_stops_before_an_undefined_instruction() {
    let mut gba = GBA::new(bios_with(0xE600_0010), sram_rom());
    assert!(!gba.cpu.next_instruction_defined());
    assert_eq!(gba.emulate_frame(), FrameEnd::UndefinedInstruction);
}

#[test]
fn thumb_encodings_that_are_undefined() {
    assert!(thumb_defined(0xD000));
    assert!(!thumb_defined(0xDE00));
    assert!(!thumb_defined(0xE800));
    assert!(thumb_defined(0x4770));
    assert!(!thumb_defined(0x47F0));
}

#[test]
fn bus_test_suite_log_messages() {
    let mut io = new_io();
    io.write8(0x04FF_F600, b'H');
    io.write8(0x04FF_F780, 0xDE);
    io.write8(0x04FF_F781, 0xC0);
    assert_eq!(io.read8(0x04FF_F780), 0xEA);
    assert_eq!(io.read8(0x04FF_F781), 0x1D);
    io.write8(0x04FF_F600, b'H');
    io.write8(0x04FF_F601, b'i');
    io.write8(0x04FF_F700, 0x01);
    assert!(io.mgba_message.is_none());
    io.write8(0x04FF_F701, 0x01);
    assert_eq!(io.mgba_message, Some((MGBALogLevel::Error, b"Hi".to_vec())));
}

#[test]
fn bus_drops_log_at_undefined_level() {
    let mut io = new_io();
    io.write8(0x04FF_F780, 0xDE);
    io.write8(0x04FF_F781, 0xC0);
    io.write8(0x04FF_F600, b'x');
    io.write8(0x04FF_F700, 0x07);
    io.write8(0x04FF_F701, 0x01);
    assert!(io.mgba_message.is_none());
}

#[test]
fn bus_hblank_dma_waits_for_hblank() {
    let mut io = new_io();
    io.write16(0x0200_0000, 0xBEEF);
    io.write32(0x0400_00D4, 0x0200_0000);
    io.write32(0x0400_00D8, 0x0300_0200);
    io.write16(0x0400_00DC, 1);
    io.write16(0x0400_00DE, 0xA200);
    io.run_dma(false, true, [false, false]);
    assert_eq!(io.read16(0x0300_0200), 0);
    io.run_dma(true, false, [false, false]);
    assert_eq!(io.read16(0x0300_0200), 0xBEEF);
    assert_eq!(io.read8(0x0400_00DF) & 0x80, 0x80);
    assert_eq!(io.dma.channels[3].count_latch, 1);
}

#[test]
fn bus_dma_requests_its_interrupt() {
    let mut io = new_io();
    io.write16(0x0400_0200, 0x0800);
    io.write16(0x0400_0208, 1);
    assert!(!io.interrupts_requested());
    io.write32(0x0400_00D4, 0x0200_0000);
    io.write32(0x0400_00D8, 0x0300_0000);
    io.write16(0x0400_00DC, 1);
    io.write16(0x0400_00DE, 0xC000);
    io.run_dma(false, false, [false, false]);
    assert_eq!(io.read16(0x0400_0202) & 0x0800, 0x0800);
    assert_eq!(io.read8(0x0400_00DF) & 0x80, 0);
    assert!(io.interrupts_requested());
}

#[test]
fn bus_keypad_interrupt_is_folded_into_if() {
    let mut io = new_io();
    io.write16(0x0400_0200, 0x1000);
    io.write16(0x0400_0208, 1);
    io.write16(0x0400_0132, 0x4001);
    assert!(!io.interrupts_requested());
    io.keypad.keyinput.bits &= !1;
    assert!(io.interrupts_requested());
    assert_eq!(io.read16(0x0400_0202) & 0x1000, 0x1000);
}

#[test]
fn scheduler_handles_every_due_event() {
    let mut io = new_io();
    io.scheduler.add(Event { cycle: 1, event_type: EventType::FrameSequencer(3) });
    io.scheduler.add(Event { cycle: 1, event_type: EventType::FrameSequencer(5) });
    io.handle_events();
    assert_eq!(io.scheduler.cycle, 1);
    assert_eq!(io.scheduler.get_next_event(), None);
    io.scheduler.cycle = 32768;
    assert_eq!(io.scheduler.get_next_event(), Some(EventType::FrameSequencer(0)));
    io.scheduler.cycle = 1 + 32768;
    let a = io.scheduler.get_next_event();
    let b = io.scheduler.get_next_event();
    assert!(a == Some(EventType::FrameSequencer(4)) || a == Some(EventType::FrameSequencer(6)));
    assert!(b == Some(EventType::FrameSequencer(4)) || b == Some(EventType::FrameSequencer(6)));
    assert_ne!(a, b);
}

#[test]
fn bus_dma_without_irq_requests_nothing() {
    let mut io = new_io();
    io.write16(0x0200_0000, 0x1234);
    io.write32(0x0400_00D4, 0x0200_0000);
    io.write32(0x0400_00D8, 0x0300_0000);
    io.write16(0x0400_00DC, 1);
    io.write16(0x0400_00DE, 0x8000);
    io.run_dma(false, false, [false, false]);
    assert_eq!(io.read16(0x0300_0000), 0x1234);
    assert_eq!(io.read16(0x0400_0202) & 0x0F00, 0);
}

#[test]
fn keypad_ignores_undefined_keycnt_bits() {
    let mut k = gba_core::io::keypad::Keypad::new();
    k.keycnt.bits = 0x4400;
    assert!(!k.interrupt_requested());
    k.keycnt.bits = 0x4401;
    k.keyinput.bits &= !1;
    assert!(k.interrupt_requested());
}
