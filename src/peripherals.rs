//! The collaborators the scheduler drives, each behind a trait: the
//! instruction table, cycle-driven peripherals, input polling, the DMA engine,
//! the scanline sink and the pause points.
use vstd::prelude::*;
use crate::cpu::Cpu;
use crate::master::Master;
use crate::memory::{Ram, REG_DIV};

verus! {

/// A decoded instruction: its opcode, the byte after it, and its base cycle cost.
#[derive(Clone, Copy, Debug, PartialEq, Eq, Structural)]
pub struct Instruct {
    pub opcode: u8,
    pub operand: u8,
    pub ticks: u8,
}

/// The instruction table of the CPU.
pub trait InstructionSet {
    /// Whether executing `instruct` may clear the master interrupt enable. The
    /// default claims nothing; a table that knows its instructions says which.
    open spec fn disables_interrupts(&self, instruct: Instruct) -> bool {
        true
    }

    /// Decodes `opcode` (with the byte after it). Every byte decodes to some
    /// instruction, and every instruction costs at least one cycle. Decoding may
    /// move the program counter over operands and report extra cycles, but does
    /// not touch the interrupt enable.
    fn decode(&self, cpu: &mut Cpu, opcode: u8, operand: u8) -> (r: Instruct)
        ensures
            r.opcode == opcode,
            r.ticks >= 1,
            final(cpu).mie == old(cpu).mie,
            final(cpu).ei_pending == old(cpu).ei_pending,
    ;

    /// Carries out the effect of `instruct`. An instruction may disable
    /// interrupts at once, but enables them only through the pending request.
    fn execute(&mut self, instruct: &Instruct, cpu: &mut Cpu, ram: &mut Ram)
        ensures
            final(cpu).mie ==> old(cpu).mie,
            !old(self).disables_interrupts(*instruct) ==> final(cpu).mie == old(cpu).mie,
    ;
}

/// A peripheral driven by elapsed cycles. `cycles_elapsed` is the total number
/// of cycles it has been advanced by; an implementation that counts cycles
/// defines it.
pub trait TimedPeripheral {
    open spec fn cycles_elapsed(&self) -> nat {
        0
    }

    /// Advances the peripheral by `cycles`, letting it update its registers.
    fn update(&mut self, cycles: u64, ram: &mut Ram)
        ensures
            final(self).cycles_elapsed() == old(self).cycles_elapsed() + cycles,
    ;
}

/// The input poller.
pub trait Controls {
    /// Writes the current button state into the input register.
    fn update_ram(&mut self, ram: &mut Ram);
}

/// The DMA engine.
pub trait Dma {
    /// Performs a pending memory-to-OAM transfer, if one was triggered.
    fn update_dma(&mut self, ram: &mut Ram);
}

/// The pixel-processing unit's output side. `lines_committed` counts the
/// scanlines committed so far; an implementation that tracks it defines it.
pub trait Gpu {
    open spec fn lines_committed(&self) -> nat {
        0
    }

    /// Commits the current scanline to the output buffer.
    fn push_line(&mut self, ram: &Ram)
        ensures
            final(self).lines_committed() == old(self).lines_committed() + 1,
    ;
}

/// A PPU output that keeps no pixels and only counts committed lines, for
/// running the core headless.
pub struct HeadlessGpu {
    pub committed: Ghost<nat>,
}

impl HeadlessGpu {
    pub fn new() -> (r: HeadlessGpu)
        ensures
            r.lines_committed() == 0,
    {
        HeadlessGpu { committed: Ghost(0) }
    }
}

impl Gpu for HeadlessGpu {
    open spec fn lines_committed(&self) -> nat {
        self.committed@
    }

    fn push_line(&mut self, ram: &Ram) {
        self.committed = Ghost(self.committed@ + 1);
    }
}

/// The pause points of the stepping modes, supplied by the caller.
pub trait Console {
    /// Shows the machine state before `instruct` runs. It can read but not change it.
    fn debug_step(&mut self, master: &Master, cpu: &Cpu, ram: &Ram, instruct: &Instruct);

    /// Blocks until the caller's continue signal arrives.
    fn wait(&mut self);
}

/// Cycles per increment of the divider register.
pub const DIVIDER_PERIOD: u64 = 64;

/// The divider: the register at `REG_DIV` counts up once every
/// `DIVIDER_PERIOD` cycles and wraps at 256.
pub struct Divider {
    /// Cycles since the last increment, below `DIVIDER_PERIOD`.
    pub sub_ticks: u64,
    pub elapsed: Ghost<nat>,
}

impl Divider {
    pub open spec fn wf(&self) -> bool {
        self.sub_ticks < DIVIDER_PERIOD
    }

    pub fn new() -> (r: Divider)
        ensures
            r.wf(),
            r.sub_ticks == 0,
            r.cycles_elapsed() == 0,
    {
        Divider { sub_ticks: 0, elapsed: Ghost(0) }
    }

    /// Advances the divider by `cycles`.
    pub fn advance(&mut self, cycles: u64, ram: &mut Ram)
        requires
            old(self).wf(),
        ensures
            final(self).wf(),
            final(self).cycles_elapsed() == old(self).cycles_elapsed() + cycles,
            final(self).sub_ticks == (old(self).sub_ticks + cycles) % (DIVIDER_PERIOD as int),
            final(ram)@ == old(ram)@.update(
                REG_DIV as int,
                ((old(ram)@[REG_DIV as int] + (old(self).sub_ticks + cycles) / (DIVIDER_PERIOD as int))
                    % 256) as u8,
            ),
    {
        let total: u64 = (self.sub_ticks as u128 + cycles as u128) as u64;
        let (steps, rest): (u64, u64) = if self.sub_ticks <= u64::MAX - cycles {
            (total / DIVIDER_PERIOD, total % DIVIDER_PERIOD)
        } else {
            // sub_ticks + cycles exceeds u64: split the sum to stay in range.
            let c = cycles - DIVIDER_PERIOD;
            let t = self.sub_ticks + c;
            (t / DIVIDER_PERIOD + 1, t % DIVIDER_PERIOD)
        };
        let incr = (steps % 256) as u8;
        ram[REG_DIV] = ram[REG_DIV].wrapping_add(incr);
        self.sub_ticks = rest;
        self.elapsed = Ghost((self.elapsed@ + cycles) as nat);
    }
}

impl TimedPeripheral for Divider {
    open spec fn cycles_elapsed(&self) -> nat {
        self.elapsed@
    }

    fn update(&mut self, cycles: u64, ram: &mut Ram) {
        if self.sub_ticks >= DIVIDER_PERIOD {
            self.sub_ticks = 0;
        }
        self.advance(cycles, ram);
    }
}

} // verus!
