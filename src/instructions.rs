//! A small instruction table: no-op, relative jump, halt, and the interrupt
//! enable and disable instructions. Every other opcode decodes to a one-cycle
//! instruction without effect, so that any byte is a defined instruction.
use vstd::prelude::*;
use crate::cpu::Cpu;
use crate::memory::Ram;
use crate::peripherals::{InstructionSet, Instruct};

verus! {

pub const OP_NOP: u8 = 0x00;
pub const OP_JR: u8 = 0x18;
pub const OP_HALT: u8 = 0x76;
pub const OP_DI: u8 = 0xF3;
pub const OP_EI: u8 = 0xFB;

/// The table itself; it keeps no state.
pub struct CoreInstructions;

impl InstructionSet for CoreInstructions {
    open spec fn disables_interrupts(&self, instruct: Instruct) -> bool {
        instruct.opcode == OP_DI
    }

    fn decode(&self, cpu: &mut Cpu, opcode: u8, operand: u8) -> (r: Instruct) {
        if opcode == OP_JR {
            cpu.pc = cpu.pc.wrapping_add(1);
            Instruct { opcode, operand, ticks: 3 }
        } else {
            Instruct { opcode, operand, ticks: 1 }
        }
    }

    fn execute(&mut self, instruct: &Instruct, cpu: &mut Cpu, ram: &mut Ram) {
        if instruct.opcode == OP_JR {
            cpu.pc = cpu.pc.wrapping_add_signed(instruct.operand as i8 as i16);
        } else if instruct.opcode == OP_DI {
            cpu.disable_interrupts();
        } else if instruct.opcode == OP_EI {
            cpu.request_interrupt_enable();
        }
    }
}

} // verus!
