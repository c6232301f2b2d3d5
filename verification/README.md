# gba_core

The core of a Game Boy Advance emulator, written in Verus: the functions of
the library state what they do in `requires` / `ensures` clauses over
mathematical models, and Verus proves the code against them. Where a
contract leaves something open (what a DMA transfer that writes the DMA
registers does to them, how many steps a frame takes), its doc comment says
so.

Layout of `src/`:

- `bus.rs`: the memory bus as a trace of operations (`BusOp`), and the
  `MemoryHandler` / `IMMU` traits that the processor drives.
- `cpu/`: the ARM7TDMI. `registers.rs` models the banked register file,
  `alu.rs` the shifter and adder, `arm.rs` and the `thumb*.rs` files each
  instruction format as a step function over the processor state and the bus
  responses, `execute.rs` the fetch/execute cycle, `defined.rs` the test of
  whether the next instruction is defined.
- `io/`: the devices behind the bus: display (`ppu/`), sound (`apu/`), DMA,
  timers and their event scheduler, keypad, interrupt controller, game pak
  backup memory and RTC, and `system.rs`, the bus that ties them together.
- `mmu/`: a smaller bus with the display, keypad and interrupt controller.
- `gba.rs`: the console (processor and bus) run a frame at a time; each
  step is a DMA check (with the blanks that began since the last one) and
  one instruction.

The event scheduler keeps its events in the `priority-queue` crate; the few
calls into it are the only trusted items of the library.

`app/main.rs` is a command-line runner: it reads a BIOS and a game pak, runs
some frames and writes the last picture as a PPM file.
