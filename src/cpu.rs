use vstd::prelude::*;

use crate::decoder::{decode, decode_spec};
use crate::errors::ChipeyteError;
use crate::interface::{Controllable, Drawable};
use crate::memory::{be_u16, Memory};
use crate::operations::{machine, with_pc, Callable, MachineState, Ops};
use crate::registers::Registers;
use crate::{INSTRUCTION_LENGTH, MEMORY_SIZE};

verus! {

/// The result of an operation, without its value.
pub open spec fn outcome<T>(r: Result<T, ChipeyteError>) -> Result<(), ChipeyteError> {
    match r {
        Ok(_) => Ok(()),
        Err(e) => Err(e),
    }
}

/// Whether one tick can take `pre` to `post` with result `r`.
///
/// The instruction word at the program counter is fetched big-endian. A word that would
/// extend past the end of memory fails with `OpFailed` on `UNKNOWN` carrying the program
/// counter. The word zero halts: it is reported as `UNKNOWN(0)` at the unchanged program
/// counter and nothing is executed. Any other word is decoded, the program counter
/// advances by one instruction, and the operation executes; on success the result is
/// the new program counter and the operation.
pub open spec fn ticks(
    pre: MachineState,
    post: MachineState,
    r: Result<(u16, Ops), ChipeyteError>,
) -> bool {
    let pc = pre.registers.pc;
    if pc + 1 >= MEMORY_SIZE {
        post == pre && (r matches Err(ChipeyteError::OpFailed(o, _)) && o == Ops::UNKNOWN(pc))
    } else {
        let word = be_u16(pre.memory[pc as int], pre.memory[pc + 1]);
        if word == 0 {
            post == pre && r == Ok::<(u16, Ops), ChipeyteError>((pc, Ops::UNKNOWN(0)))
        } else {
            let op = decode_spec(word);
            &&& op.executes(with_pc(pre, (pc + INSTRUCTION_LENGTH) as u16), post, outcome(r))
            &&& r is Ok ==> r == Ok::<(u16, Ops), ChipeyteError>((post.registers.pc, op))
        }
    }
}

/// The processor: its register file and a cycle counter.
#[derive(Debug, PartialEq)]
pub struct CPU {
    pub counter: u32,
    pub registers: Registers,
}

impl CPU {
    /// A processor with cleared registers whose program counter is `initial_pc`.
    pub fn new(initial_pc: u16) -> (r: CPU)
        ensures
            r.counter == 0,
            r.registers == Registers::new_spec(initial_pc),
    {
        CPU { counter: 0, registers: Registers::new(initial_pc) }
    }

    /// Fetches, decodes and executes one instruction.
    pub fn tick<D: Drawable, C: Controllable>(
        &mut self,
        memory: &mut Memory,
        screen: &mut D,
        controller: &mut C,
    ) -> (r: Result<(u16, Ops), ChipeyteError>)
        requires
            old(memory).wf(),
        ensures
            final(memory).wf(),
            final(self).counter == old(self).counter,
            ticks(
                machine(
                    old(self).registers,
                    old(memory)@,
                    old(screen).pixels(),
                    old(controller).pressed(),
                ),
                machine(
                    final(self).registers,
                    final(memory)@,
                    final(screen).pixels(),
                    final(controller).pressed(),
                ),
                r,
            ),
    {
        let pc = self.registers.pc;
        if pc as usize + 1 >= MEMORY_SIZE {
            return Err(
                ChipeyteError::OpFailed(
                    Ops::UNKNOWN(pc),
                    "Program counter is outside of memory".to_string(),
                ),
            );
        }
        let instruction = self.fetch(memory);
        if instruction == 0 {
            return Ok((pc, Ops::UNKNOWN(instruction)));
        }
        let operation = decode(instruction);
        self.registers.pc = pc + INSTRUCTION_LENGTH;
        match self.execute(operation, memory, screen, controller) {
            Ok(()) => Ok((self.registers.pc, operation)),
            Err(e) => Err(e),
        }
    }

    fn fetch(&self, memory: &Memory) -> (r: u16)
        requires
            memory.wf(),
            self.registers.pc + 1 < MEMORY_SIZE,
        ensures
            r == be_u16(memory@[self.registers.pc as int], memory@[self.registers.pc + 1]),
    {
        memory.get_u16(self.registers.pc as usize)
    }

    fn execute<D: Drawable, C: Controllable>(
        &mut self,
        operation: Ops,
        memory: &mut Memory,
        screen: &mut D,
        controller: &mut C,
    ) -> (r: Result<(), ChipeyteError>)
        requires
            old(memory).wf(),
        ensures
            final(memory).wf(),
            final(self).counter == old(self).counter,
            operation.executes(
                machine(
                    old(self).registers,
                    old(memory)@,
                    old(screen).pixels(),
                    old(controller).pressed(),
                ),
                machine(
                    final(self).registers,
                    final(memory)@,
                    final(screen).pixels(),
                    final(controller).pressed(),
                ),
                r,
            ),
    {
        operation.call(&mut self.registers, memory, screen, controller)
    }
}

} // verus!
