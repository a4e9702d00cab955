//! Cycle-stepping scheduler of a Game Boy class handheld: it drives the CPU one
//! instruction at a time, hands the consumed cycles to the peripherals in a
//! fixed order, and runs the PPU mode machine over the scanlines of a frame.
pub mod memory;
pub mod ppu_mode;
pub mod cpu;
pub mod peripherals;
pub mod master;
pub mod instructions;
