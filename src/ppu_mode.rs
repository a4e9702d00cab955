//! The PPU mode state machine: which mode a scanline is in, and which mode
//! edges raise the LCD status interrupt.
//!
//! This model has two phases per visible scanline: `PixelTransfer` from the
//! start of the line up to the threshold, then `HBlank`. There is no separate
//! OAM-scan phase; the interrupt-select bit that the memory map gives to OAM
//! scan (bit 5) stands for the `PixelTransfer` phase here.
use vstd::prelude::*;
use crate::memory::{Ram, REG_IF, REG_LYC, REG_STAT, INT_STAT};

verus! {

/// Cycles of one scanline.
pub const SCANLINE_CYCLE_BUDGET: u64 = 114;

/// A visible scanline is in `HBlank` once its cycle counter exceeds this.
pub const HBLANK_THRESHOLD: u64 = 63;

/// Visible scanlines per frame.
pub const VISIBLE_LINES: u8 = 144;

/// Scanline-equivalents of the V-Blank period.
pub const VBLANK_LINES: u8 = 10;

/// LCD status bit: interrupt when the scanline equals the compare register.
pub const STAT_SELECT_LYC: u8 = 0x40;

/// LCD status bit: interrupt on entering pixel transfer.
pub const STAT_SELECT_PIXEL: u8 = 0x20;

/// LCD status bit: interrupt on entering V-Blank.
pub const STAT_SELECT_VBLANK: u8 = 0x10;

/// LCD status bit: interrupt on entering H-Blank.
pub const STAT_SELECT_HBLANK: u8 = 0x08;

#[derive(Clone, Copy, Debug, PartialEq, Eq, Structural)]
pub enum PpuMode {
    HBlank,
    VBlank,
    PixelTransfer,
}

/// The mode of a visible scanline whose cycle counter stands at `tick`.
pub open spec fn visible_mode(tick: u64) -> PpuMode {
    if tick > HBLANK_THRESHOLD {
        PpuMode::HBlank
    } else {
        PpuMode::PixelTransfer
    }
}

/// The mode of a visible scanline whose cycle counter stands at `tick`.
pub fn mode_for_tick(tick: u64) -> (r: PpuMode)
    ensures
        r == visible_mode(tick),
{
    if tick > HBLANK_THRESHOLD {
        PpuMode::HBlank
    } else {
        PpuMode::PixelTransfer
    }
}

/// The interrupt-select bit of the LCD status register that belongs to `mode`.
pub open spec fn select_bit(mode: PpuMode) -> u8 {
    match mode {
        PpuMode::HBlank => STAT_SELECT_HBLANK,
        PpuMode::VBlank => STAT_SELECT_VBLANK,
        PpuMode::PixelTransfer => STAT_SELECT_PIXEL,
    }
}

/// Whether the LCD status register `stat` selects the interrupt of bit `bit`.
pub open spec fn selected(stat: u8, bit: u8) -> bool {
    stat & bit != 0
}

/// The scanline-compare condition: selected, the line matches the compare
/// register, and the previous observation was `HBlank`.
pub open spec fn lyc_fires(stat: u8, lyc: u8, line: u8, previous: PpuMode) -> bool {
    selected(stat, STAT_SELECT_LYC) && line == lyc && previous == PpuMode::HBlank
}

/// The mode-edge condition: the mode changed and the new mode's interrupt is selected.
pub open spec fn edge_fires(stat: u8, previous: PpuMode, current: PpuMode) -> bool {
    current != previous && selected(stat, select_bit(current))
}

/// Whether one observation raises the LCD status interrupt.
pub open spec fn stat_fires(stat: u8, lyc: u8, line: u8, previous: PpuMode, current: PpuMode) -> bool {
    lyc_fires(stat, lyc, line, previous) || edge_fires(stat, previous, current)
}

/// The interrupt request register after one observation.
pub open spec fn raised_if(flags: u8, fires: bool) -> u8 {
    if fires {
        flags | INT_STAT
    } else {
        flags
    }
}

/// Mode-edge single fire: along a script of observed modes, each compared with
/// the one observed before it, a mode-select condition raises the LCD status
/// interrupt exactly at the observations where the mode changes into a mode
/// whose interrupt is selected, and never when the same mode is observed again.
pub proof fn lemma_mode_edge_single_fire(stat: u8, lyc: u8, line: u8, script: Seq<PpuMode>)
    requires
        !selected(stat, STAT_SELECT_LYC),
    ensures
        forall|i: int|
            0 < i < script.len() ==> (#[trigger] stat_fires(stat, lyc, line, script[i - 1], script[i])
                <==> (script[i] != script[i - 1] && selected(stat, select_bit(script[i])))),
        forall|i: int|
            0 < i < script.len() && script[i] == script[i - 1] ==> !#[trigger] stat_fires(
                stat,
                lyc,
                line,
                script[i - 1],
                script[i],
            ),
{
}

/// One observation of the mode machine: compares `current` with `previous`
/// against the LCD status register, raises the LCD status interrupt request
/// when a condition holds, and returns the mode the next observation compares with.
pub fn observe_mode(line: u8, previous: PpuMode, current: PpuMode, ram: &mut Ram) -> (r: PpuMode)
    ensures
        r == current,
        final(ram)@ == old(ram)@.update(
            REG_IF as int,
            raised_if(
                old(ram)@[REG_IF as int],
                stat_fires(old(ram)@[REG_STAT as int], old(ram)@[REG_LYC as int], line, previous, current),
            ),
        ),
{
    let stat = ram[REG_STAT];
    let lyc = ram[REG_LYC];
    let lyc_hit = stat & STAT_SELECT_LYC != 0 && line == lyc && previous == PpuMode::HBlank;
    let select = match current {
        PpuMode::HBlank => STAT_SELECT_HBLANK,
        PpuMode::VBlank => STAT_SELECT_VBLANK,
        PpuMode::PixelTransfer => STAT_SELECT_PIXEL,
    };
    let edge_hit = current != previous && stat & select != 0;
    let flags = ram[REG_IF];
    if lyc_hit || edge_hit {
        ram[REG_IF] = flags | INT_STAT;
    } else {
        ram[REG_IF] = flags;
    }
    current
}

} // verus!
