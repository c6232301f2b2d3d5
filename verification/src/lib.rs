//! Core of a Game Boy Advance emulator: the ARM7TDMI processor, the memory bus
//! and the memory-mapped devices, with their behaviour stated as contracts.

pub mod bus;
pub mod cpu;
pub mod gba;
pub mod io;
pub mod laws;
pub mod mmu;
