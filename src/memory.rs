//! The shared address space and the memory-mapped registers the core reads and writes.
use vstd::prelude::*;

verus! {

/// The flat, byte-addressable address space shared by every component.
pub type Ram = [u8; 0x10000];

/// Input (joypad) register.
pub const REG_JOYP: usize = 0xFF00;

/// Divider register.
pub const REG_DIV: usize = 0xFF04;

/// Timer counter register.
pub const REG_TIMA: usize = 0xFF05;

/// Interrupt flag (request) register.
pub const REG_IF: usize = 0xFF0F;

/// LCD status register: mode bits and interrupt-select bits.
pub const REG_STAT: usize = 0xFF41;

/// Current scanline register.
pub const REG_LY: usize = 0xFF44;

/// Scanline compare register.
pub const REG_LYC: usize = 0xFF45;

/// Interrupt enable register.
pub const REG_IE: usize = 0xFFFF;

/// Request bit of the frame-level V-Blank interrupt.
pub const INT_VBLANK: u8 = 0x01;

/// Request bit of the LCD status interrupt.
pub const INT_STAT: u8 = 0x02;

/// Request bit of the timer interrupt.
pub const INT_TIMER: u8 = 0x04;

/// Request bit of the joypad interrupt.
pub const INT_JOYPAD: u8 = 0x10;

/// The bits of the request and enable registers that name an interrupt source.
pub const INT_MASK: u8 = 0x1F;

} // verus!
