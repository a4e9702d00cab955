//! The CPU state the scheduler works with, the interrupt dispatch that runs
//! before each fetch, and the contract of the instruction table.
use vstd::prelude::*;
use vstd::wrapping::u16_specs;
use crate::memory::{Ram, REG_IE, REG_IF, INT_MASK};

verus! {

/// The part of the CPU that the scheduler drives: program counter, stack
/// pointer, master interrupt enable with its pending change, and the extra
/// cycles that the current instruction reported.
#[derive(Clone, Copy, Debug, PartialEq, Eq, Structural)]
pub struct Cpu {
    pub pc: u16,
    pub sp: u16,
    pub mie: bool,
    /// An enable requested by an instruction, applied at the next step.
    pub ei_pending: bool,
    /// Extra cycles of the current instruction (for example a taken branch).
    pub ticks: u8,
}

impl Cpu {
    /// A CPU at the given program counter and stack pointer, interrupts disabled.
    pub fn new(pc: u16, sp: u16) -> (r: Cpu)
        ensures
            r == (Cpu { pc, sp, mie: false, ei_pending: false, ticks: 0 }),
    {
        Cpu { pc, sp, mie: false, ei_pending: false, ticks: 0 }
    }

    /// Resets the per-instruction extra-cycle accumulator.
    pub fn clear_ticks(&mut self)
        ensures
            *final(self) == (Cpu { ticks: 0, ..*old(self) }),
    {
        self.ticks = 0;
    }

    /// The extra cycles reported for the current instruction.
    pub fn get_ticks(&self) -> (r: u8)
        ensures
            r == self.ticks,
    {
        self.ticks
    }

    /// Adds extra cycles to the current instruction, saturating.
    pub fn add_ticks(&mut self, extra: u8)
        ensures
            *final(self) == (Cpu {
                ticks: if old(self).ticks + extra > u8::MAX { u8::MAX } else { (old(self).ticks + extra) as u8 },
                ..*old(self)
            }),
    {
        self.ticks = self.ticks.saturating_add(extra);
    }

    /// Requests that interrupts be enabled once the current instruction has completed.
    pub fn request_interrupt_enable(&mut self)
        ensures
            *final(self) == (Cpu { ei_pending: true, ..*old(self) }),
    {
        self.ei_pending = true;
    }

    /// Disables interrupts at once and drops a pending enable.
    pub fn disable_interrupts(&mut self)
        ensures
            *final(self) == (Cpu { mie: false, ei_pending: false, ..*old(self) }),
    {
        self.mie = false;
        self.ei_pending = false;
    }

    /// Applies an enable that the previous instruction requested.
    pub fn update_interrupt_status(&mut self)
        ensures
            *final(self) == applied_enable(*old(self)),
    {
        if self.ei_pending {
            self.mie = true;
            self.ei_pending = false;
        }
    }
}

/// The CPU once a pending enable has been applied.
pub open spec fn applied_enable(cpu: Cpu) -> Cpu {
    if cpu.ei_pending {
        Cpu { mie: true, ei_pending: false, ..cpu }
    } else {
        cpu
    }
}

/// The interrupt sources that are both requested and enabled.
pub open spec fn pending_sources(ram: Ram) -> u8 {
    ram@[REG_IE as int] & ram@[REG_IF as int] & INT_MASK
}

/// Whether an interrupt is dispatched before the next fetch.
pub open spec fn dispatch_due(cpu: Cpu, ram: Ram) -> bool {
    cpu.mie && pending_sources(ram) != 0
}

/// The request bit of the source served first: the lowest set bit.
pub open spec fn first_source(p: u8) -> u8 {
    if p & 0x01 != 0 {
        0x01
    } else if p & 0x02 != 0 {
        0x02
    } else if p & 0x04 != 0 {
        0x04
    } else if p & 0x08 != 0 {
        0x08
    } else {
        0x10
    }
}

/// The address of the service routine of the source with request bit `bit`.
pub open spec fn vector_of(bit: u8) -> u16 {
    if bit == 0x01 {
        0x40
    } else if bit == 0x02 {
        0x48
    } else if bit == 0x04 {
        0x50
    } else if bit == 0x08 {
        0x58
    } else {
        0x60
    }
}

/// The CPU after interrupt evaluation: on a dispatch the return address is
/// pushed, control jumps to the vector and interrupts are disabled.
pub open spec fn dispatched_cpu(cpu: Cpu, ram: Ram) -> Cpu {
    if dispatch_due(cpu, ram) {
        Cpu {
            pc: vector_of(first_source(pending_sources(ram))),
            sp: u16_specs::wrapping_sub(cpu.sp, 2),
            mie: false,
            ..cpu
        }
    } else {
        cpu
    }
}

/// Memory after interrupt evaluation: on a dispatch the return address sits
/// on the stack (low byte first) and the served request bit is cleared.
pub open spec fn dispatched_ram(cpu: Cpu, ram: Ram) -> Seq<u8> {
    if dispatch_due(cpu, ram) {
        let sp = u16_specs::wrapping_sub(cpu.sp, 2);
        let pushed = ram@.update(sp as int, (cpu.pc & 0xFF) as u8).update(
            u16_specs::wrapping_add(sp, 1) as int,
            (cpu.pc >> 8) as u8,
        );
        pushed.update(REG_IF as int, pushed[REG_IF as int] & !first_source(pending_sources(ram)))
    } else {
        ram@
    }
}

/// Evaluates pending interrupts and dispatches the first one that is both
/// requested and enabled, if the master interrupt enable is set.
pub fn interrupt_check(cpu: &mut Cpu, ram: &mut Ram)
    ensures
        *final(cpu) == dispatched_cpu(*old(cpu), *old(ram)),
        final(ram)@ == dispatched_ram(*old(cpu), *old(ram)),
{
    let pending = ram[REG_IE] & ram[REG_IF] & INT_MASK;
    if !cpu.mie || pending == 0 {
        return;
    }
    let (bit, vector): (u8, u16) = if pending & 0x01 != 0 {
        (0x01, 0x40)
    } else if pending & 0x02 != 0 {
        (0x02, 0x48)
    } else if pending & 0x04 != 0 {
        (0x04, 0x50)
    } else if pending & 0x08 != 0 {
        (0x08, 0x58)
    } else {
        (0x10, 0x60)
    };
    let sp = cpu.sp.wrapping_sub(2);
    ram[sp as usize] = (cpu.pc & 0xFF) as u8;
    ram[sp.wrapping_add(1) as usize] = (cpu.pc >> 8) as u8;
    ram[REG_IF] = ram[REG_IF] & !bit;
    cpu.sp = sp;
    cpu.pc = vector;
    cpu.mie = false;
}

/// The address the next opcode is fetched from.
pub open spec fn fetch_address(cpu: Cpu, ram: Ram) -> u16 {
    dispatched_cpu(cpu, ram).pc
}

/// Interrupt dispatch precedes fetch: with an interrupt requested, enabled and
/// allowed by the master enable, the next opcode is read from the vector of the
/// first pending source, not from the program counter.
pub proof fn lemma_dispatch_precedes_fetch(cpu: Cpu, ram: Ram)
    requires
        dispatch_due(cpu, ram),
    ensures
        fetch_address(cpu, ram) == vector_of(first_source(pending_sources(ram))),
        0x40 <= fetch_address(cpu, ram) <= 0x60,
{
}

/// The fetch phase of a step: evaluates interrupts, resets the extra-cycle
/// accumulator, reads the opcode and the byte after it, and moves the program
/// counter past the opcode.
pub fn fetch_opcode(cpu: &mut Cpu, ram: &mut Ram) -> (r: (u8, u8))
    ensures
        final(ram)@ == dispatched_ram(*old(cpu), *old(ram)),
        *final(cpu) == (Cpu {
            pc: u16_specs::wrapping_add(fetch_address(*old(cpu), *old(ram)), 1),
            ticks: 0,
            ..dispatched_cpu(*old(cpu), *old(ram))
        }),
        r.0 == final(ram)@[fetch_address(*old(cpu), *old(ram)) as int],
        r.1 == final(ram)@[u16_specs::wrapping_add(fetch_address(*old(cpu), *old(ram)), 1) as int],
{
    interrupt_check(cpu, ram);
    cpu.clear_ticks();
    let pc = cpu.pc;
    let opcode = ram[pc as usize];
    let operand = ram[pc.wrapping_add(1) as usize];
    cpu.pc = pc.wrapping_add(1);
    (opcode, operand)
}

} // verus!
