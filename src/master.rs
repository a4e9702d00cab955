//! The cycle scheduler and the frame orchestrator.
use vstd::prelude::*;
use crate::cpu::{applied_enable, dispatch_due, dispatched_ram, fetch_address, fetch_opcode, Cpu};
use crate::memory::{Ram, INT_VBLANK, REG_IF, REG_LY, REG_LYC, REG_STAT};
use crate::peripherals::{Console, Controls, Dma, Gpu, InstructionSet, Instruct, TimedPeripheral};
use crate::ppu_mode::{
    mode_for_tick, observe_mode, raised_if, stat_fires, PpuMode, SCANLINE_CYCLE_BUDGET,
    VBLANK_LINES, VISIBLE_LINES,
};

verus! {

/// The most cycles one step can take: a base cost and extra cycles, each a byte.
pub const MAX_STEP_CYCLES: u64 = 510;

/// Scanline-equivalents in one frame.
pub const FRAME_LINES: u8 = VISIBLE_LINES + VBLANK_LINES;

/// Scheduler state.
pub struct Master {
    /// Instructions retired (wrapping); for diagnostics only.
    pub nb_steps: u64,
    /// Cycles since the start of the current scanline.
    pub tick: u64,
    pub mode: PpuMode,
    /// The mode of the previous observation of the mode machine.
    pub previous_mode: PpuMode,
    pub step_by_step: bool,
    pub line_by_line: bool,
    pub screen_by_screen: bool,
    pub log: bool,
    /// Frame-level V-Blank interrupt requests raised so far.
    pub vblank_requests: Ghost<nat>,
}

/// The step counter after one more step.
pub open spec fn next_count(n: u64) -> u64 {
    if n == u64::MAX {
        0
    } else {
        (n + 1) as u64
    }
}

/// Whether scanline-equivalent `line` of a frame is a visible scanline.
pub open spec fn is_visible(line: u8) -> bool {
    line < VISIBLE_LINES
}

/// Whether starting scanline-equivalent `line` raises the frame-level V-Blank interrupt.
pub open spec fn raises_vblank(line: u8) -> bool {
    line == VISIBLE_LINES
}

/// What a step may do to the master interrupt enable: it ends enabled only if
/// it was enabled, or an enable was pending, when the step began.
pub open spec fn enable_bound(before: Cpu, after: Cpu) -> bool {
    after.mie ==> before.mie || before.ei_pending
}

/// The sum of a sequence of cycle counts.
pub open spec fn total_cycles(costs: Seq<int>) -> int
    decreases costs.len(),
{
    if costs.len() == 0 {
        0
    } else {
        total_cycles(costs.drop_last()) + costs.last()
    }
}

/// The cost of each step of a run, from the scanline counter before and after it.
pub open spec fn step_costs(ticks: Seq<int>) -> Seq<int> {
    Seq::new((ticks.len() - 1) as nat, |i: int| ticks[i + 1] - ticks[i])
}

/// Cycle conservation: over a run of steps in which each step advanced the
/// timer by exactly the cycles it added to the scanline counter (as `step`
/// ensures), the timer has been advanced by the sum of the steps' costs.
/// `ticks[i]` and `elapsed[i]` are the scanline counter and the timer's
/// elapsed cycles after the first `i` steps.
pub proof fn lemma_cycle_conservation(ticks: Seq<int>, elapsed: Seq<int>)
    requires
        ticks.len() >= 1,
        elapsed.len() == ticks.len(),
        forall|i: int|
            0 <= i < ticks.len() - 1 ==> #[trigger] elapsed[i + 1] - elapsed[i] == ticks[i + 1] - ticks[i],
    ensures
        elapsed.last() - elapsed[0] == total_cycles(step_costs(ticks)),
    decreases ticks.len(),
{
    if ticks.len() > 1 {
        let t = ticks.drop_last();
        let e = elapsed.drop_last();
        assert forall|i: int| 0 <= i < t.len() - 1 implies #[trigger] e[i + 1] - e[i] == t[i + 1] - t[i] by {
            assert(elapsed[i + 1] - elapsed[i] == ticks[i + 1] - ticks[i]);
        }
        lemma_cycle_conservation(t, e);
        assert(step_costs(ticks).drop_last() =~= step_costs(t));
        let n = ticks.len() - 2;
        assert(elapsed[n + 1] - elapsed[n] == ticks[n + 1] - ticks[n]);
    } else {
        assert(step_costs(ticks).len() == 0);
    }
}

/// Interrupt-enable latency: an enable requested during a step is not in effect
/// when that step ends, so no interrupt is dispatched at the start of the next
/// step; that next step applies it before its own instruction executes.
pub proof fn lemma_interrupt_enable_latency(start: Cpu, end: Cpu, ram: Ram)
    requires
        !start.mie,
        !start.ei_pending,
        enable_bound(start, end),
    ensures
        !end.mie,
        !dispatch_due(end, ram),
        end.ei_pending ==> applied_enable(end).mie,
{
}

impl Master {
    /// A scheduler at the start of a scanline, with the given stepping flags.
    pub fn new(step_by_step: bool, line_by_line: bool, screen_by_screen: bool, log: bool) -> (r: Master)
        ensures
            r == (Master {
                nb_steps: 0,
                tick: 0,
                mode: PpuMode::HBlank,
                previous_mode: PpuMode::HBlank,
                step_by_step,
                line_by_line,
                screen_by_screen,
                log,
                vblank_requests: Ghost(0),
            }),
    {
        Master {
            nb_steps: 0,
            tick: 0,
            mode: PpuMode::HBlank,
            previous_mode: PpuMode::HBlank,
            step_by_step,
            line_by_line,
            screen_by_screen,
            log,
            vblank_requests: Ghost(0),
        }
    }

    /// Advances emulation by exactly one instruction: interrupt dispatch, fetch
    /// and decode, the optional pause, cycle accounting, timer, input, the
    /// pending interrupt enable, execution, then DMA, in that order.
    pub fn step<I: InstructionSet, T: TimedPeripheral, C: Controls, D: Dma, H: Console>(
        &mut self,
        cpu: &mut Cpu,
        isa: &mut I,
        timer: &mut T,
        controls: &mut C,
        dma: &mut D,
        console: &mut H,
        ram: &mut Ram,
    ) -> (r: (Instruct, u8))
        requires
            old(self).tick <= u64::MAX - MAX_STEP_CYCLES,
        ensures
            r.0.opcode == dispatched_ram(*old(cpu), *old(ram))[fetch_address(*old(cpu), *old(ram)) as int],
            r.0.ticks >= 1,
            *final(self) == (Master {
                nb_steps: next_count(old(self).nb_steps),
                tick: (old(self).tick + r.0.ticks + r.1) as u64,
                log: old(self).log || old(self).step_by_step,
                ..*old(self)
            }),
            final(timer).cycles_elapsed() == old(timer).cycles_elapsed() + r.0.ticks + r.1,
            enable_bound(*old(cpu), *final(cpu)),
            old(cpu).ei_pending && !old(isa).disables_interrupts(r.0) ==> final(cpu).mie,
    {
        self.nb_steps = self.nb_steps.wrapping_add(1);

        let (opcode, operand) = fetch_opcode(cpu, ram);
        let instruct = isa.decode(cpu, opcode, operand);

        if self.step_by_step {
            self.log = true;
            console.debug_step(self, cpu, ram, &instruct);
            console.wait();
        }

        let extra = cpu.get_ticks();
        let cost: u64 = instruct.ticks as u64 + extra as u64;
        self.tick = self.tick + cost;

        timer.update(cost, ram);

        controls.update_ram(ram);

        cpu.update_interrupt_status();

        isa.execute(&instruct, cpu, ram);

        dma.update_dma(ram);
        (instruct, extra)
    }

    /// One observation of the mode machine on scanline `line`: raises the LCD
    /// status interrupt request when a selected condition holds, and records the
    /// current mode as the previous one.
    pub fn lcd_stat(&mut self, line: u8, ram: &mut Ram)
        ensures
            *final(self) == (Master { previous_mode: old(self).mode, ..*old(self) }),
            final(ram)@ == old(ram)@.update(
                REG_IF as int,
                raised_if(
                    old(ram)@[REG_IF as int],
                    stat_fires(
                        old(ram)@[REG_STAT as int],
                        old(ram)@[REG_LYC as int],
                        line,
                        old(self).previous_mode,
                        old(self).mode,
                    ),
                ),
            ),
    {
        self.previous_mode = observe_mode(line, self.previous_mode, self.mode, ram);
    }

    /// Starts scanline-equivalent `line`: resets the cycle counter, and on the
    /// first line of the V-Blank period raises the V-Blank interrupt request and
    /// enters V-Blank.
    pub fn begin_scanline(&mut self, line: u8, ram: &mut Ram)
        ensures
            *final(self) == (Master {
                tick: 0,
                mode: if raises_vblank(line) { PpuMode::VBlank } else { old(self).mode },
                vblank_requests: if raises_vblank(line) {
                    Ghost(old(self).vblank_requests@ + 1)
                } else {
                    old(self).vblank_requests
                },
                ..*old(self)
            }),
            final(ram)@ == if raises_vblank(line) {
                old(ram)@.update(REG_IF as int, old(ram)@[REG_IF as int] | INT_VBLANK)
            } else {
                old(ram)@
            },
    {
        if line == VISIBLE_LINES {
            ram[REG_IF] = ram[REG_IF] | INT_VBLANK;
            self.mode = PpuMode::VBlank;
            self.vblank_requests = Ghost(self.vblank_requests@ + 1);
        }
        self.tick = 0;
    }

    /// Runs scanline-equivalent `line` of a frame: steps until the scanline's
    /// cycle budget is used up, observing the mode machine after every step;
    /// commits a visible line to the PPU, then moves the scanline register to
    /// the next line. Returns the number of steps taken and the scanline
    /// counter just before the last of them.
    pub fn run_scanline<I: InstructionSet, T: TimedPeripheral, C: Controls, D: Dma, G: Gpu, H: Console>(
        &mut self,
        line: u8,
        cpu: &mut Cpu,
        isa: &mut I,
        gpu: &mut G,
        timer: &mut T,
        controls: &mut C,
        dma: &mut D,
        console: &mut H,
        ram: &mut Ram,
    ) -> (r: (u64, u64))
        requires
            line < FRAME_LINES,
            old(ram)@[REG_LY as int] == line,
        ensures
            1 <= r.0 <= SCANLINE_CYCLE_BUDGET,
            r.1 < SCANLINE_CYCLE_BUDGET <= final(self).tick,
            r.1 < final(self).tick <= r.1 + MAX_STEP_CYCLES,
            final(timer).cycles_elapsed() == old(timer).cycles_elapsed() + final(self).tick,
            final(gpu).lines_committed() == old(gpu).lines_committed() + if is_visible(line) { 1nat } else { 0nat },
            final(self).vblank_requests@ == old(self).vblank_requests@ + if raises_vblank(line) { 1nat } else { 0nat },
            final(ram)@[REG_LY as int] == line + 1,
            final(self).previous_mode == final(self).mode,
            !is_visible(line) ==> final(self).mode == (if raises_vblank(line) {
                PpuMode::VBlank
            } else {
                old(self).mode
            }),
            final(self).step_by_step == old(self).step_by_step,
            final(self).line_by_line == old(self).line_by_line,
            final(self).screen_by_screen == old(self).screen_by_screen,
    {
        self.begin_scanline(line, ram);
        let visible = line < VISIBLE_LINES;
        let ghost start = timer.cycles_elapsed();
        let ghost entry_mode = self.mode;
        let ghost requests = self.vblank_requests@;
        let mut steps: u64 = 0;
        let mut last: u64 = 0;
        while self.tick < SCANLINE_CYCLE_BUDGET
            invariant
                self.tick < SCANLINE_CYCLE_BUDGET + MAX_STEP_CYCLES,
                timer.cycles_elapsed() == start + self.tick,
                visible == is_visible(line),
                !visible ==> self.mode == entry_mode,
                self.vblank_requests@ == requests,
                steps <= self.tick,
                steps == 0 ==> self.tick == 0,
                steps > 0 ==> steps <= last + 1,
                steps > 0 ==> last < SCANLINE_CYCLE_BUDGET && last < self.tick <= last + MAX_STEP_CYCLES,
                self.tick > 0 ==> self.previous_mode == self.mode,
                self.step_by_step == old(self).step_by_step,
                self.line_by_line == old(self).line_by_line,
                self.screen_by_screen == old(self).screen_by_screen,
            decreases SCANLINE_CYCLE_BUDGET + MAX_STEP_CYCLES - self.tick,
        {
            if visible {
                self.mode = mode_for_tick(self.tick);
            }
            last = self.tick;
            self.step(cpu, isa, timer, controls, dma, console, ram);
            steps = steps + 1;
            self.lcd_stat(line, ram);
            if self.step_by_step {
                console.wait();
            }
        }
        if visible {
            gpu.push_line(ram);
        }
        if self.line_by_line {
            console.wait();
        }
        ram[REG_LY] = line + 1;
        (steps, last)
    }

    /// Renders one frame: resets the scanline register, runs the visible
    /// scanlines, raises the V-Blank request once, and runs the V-Blank period.
    pub fn screen<I: InstructionSet, T: TimedPeripheral, C: Controls, D: Dma, G: Gpu, H: Console>(
        &mut self,
        cpu: &mut Cpu,
        isa: &mut I,
        gpu: &mut G,
        timer: &mut T,
        controls: &mut C,
        dma: &mut D,
        console: &mut H,
        ram: &mut Ram,
    )
        ensures
            final(gpu).lines_committed() == old(gpu).lines_committed() + VISIBLE_LINES,
            final(self).vblank_requests@ == old(self).vblank_requests@ + 1,
            final(ram)@[REG_LY as int] == FRAME_LINES,
            final(self).mode == PpuMode::VBlank,
            final(timer).cycles_elapsed() >= old(timer).cycles_elapsed() + FRAME_LINES * SCANLINE_CYCLE_BUDGET,
            SCANLINE_CYCLE_BUDGET <= final(self).tick < SCANLINE_CYCLE_BUDGET + MAX_STEP_CYCLES,
    {
        ram[REG_LY] = 0;
        let ghost start = timer.cycles_elapsed();
        let ghost committed = gpu.lines_committed();
        let ghost requests = self.vblank_requests@;
        let mut line: u8 = 0;
        while line < FRAME_LINES
            invariant
                line <= FRAME_LINES,
                ram@[REG_LY as int] == line,
                timer.cycles_elapsed() >= start + line * SCANLINE_CYCLE_BUDGET,
                gpu.lines_committed() == committed + if line <= VISIBLE_LINES { line as nat } else { VISIBLE_LINES as nat },
                self.vblank_requests@ == requests + if line > VISIBLE_LINES { 1nat } else { 0nat },
                line > VISIBLE_LINES ==> self.mode == PpuMode::VBlank,
                line > 0 ==> SCANLINE_CYCLE_BUDGET <= self.tick < SCANLINE_CYCLE_BUDGET + MAX_STEP_CYCLES,
            decreases FRAME_LINES - line,
        {
            self.run_scanline(line, cpu, isa, gpu, timer, controls, dma, console, ram);
            line = line + 1;
        }
        if self.screen_by_screen {
            console.wait();
        }
    }
}

} // verus!
