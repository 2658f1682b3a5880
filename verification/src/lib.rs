//! A cycle-driven emulator core for an 8-bit handheld console.
//!
//! The core is the CPU with its instruction set, the memory bus with its
//! I/O registers, the interrupt controller, the timer and the display
//! engine. [`exec_opcode`] carries out one instruction and returns the
//! cycles it took; those cycles drive the timer and the display.
use crate::state::{GBState, MemError};
use vstd::prelude::*;

pub mod audio;
pub mod bits;
pub mod display;
pub mod interrupts;
pub mod io;
pub mod isa;
pub mod opcodes;
pub mod state;

verus! {

/// Performs one step of the CPU and returns the cycles it took.
///
/// Fails with [`MemError::Unimplemented`] on an opcode that names no
/// instruction of this core, and with [`MemError::StackOverflow`] where the
/// instruction would move the stack outside its window. A failure is fatal:
/// the machine is left as it was before the step, with the program counter
/// at the failing instruction, so that execution cannot go on past it.
pub fn exec_opcode(state: &mut GBState) -> (res: Result<u64, MemError>)
    ensures
        (final(state)@, res) == old(state)@.exec_opcode(),
        res is Ok ==> res.unwrap() <= 24,
        res is Err ==> final(state)@ == old(state)@,
{
    let pc: u16 = state.cpu.pc;
    let halted: bool = state.mem.halt;
    if halted {
        if state.interrupt_source().is_none() {
            return Ok(crate::isa::HALT_CYCLES);
        }
        state.mem.halt = false;
    }
    let opcode: u8 = opcodes::r_8b_from_pc(state)?;
    let ghost fetched = state@;
    let res: Result<u64, MemError> = opcodes::decode(state, opcode);
    match res {
        Ok(cycles) => Ok(cycles),
        Err(error) => {
            proof {
                crate::isa::laws::lemma_failure_changes_nothing(fetched, opcode);
            }
            state.cpu.pc = pc;
            state.mem.halt = halted;
            Err(error)
        },
    }
}

} // verus!
