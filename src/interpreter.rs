use vstd::prelude::*;

use std::time::Duration;

use crate::cpu::{ticks, CPU};
use crate::errors::ChipeyteError;
use crate::interface::{Audible, Controllable, Drawable, UserAction};
use crate::memory::{initial_memory, Memory};
use crate::operations::{machine, MachineState, Ops};
use crate::registers::Registers;
use crate::{MEMORY_SIZE, PROGRAM_START};

verus! {

/// Time per instruction when none is configured: 1.5 ms.
pub const DEFAULT_CLOCK_NANOS: u64 = 1_500_000;

pub assume_specification[ std::time::Duration::from_nanos ](nanos: u64) -> std::time::Duration;

/// Settings of an interpreter run.
pub struct Config {
    /// Time per instruction; `None` selects the default.
    pub clock_speed: Option<Duration>,
}

impl Config {
    /// Settings with the given time per instruction.
    pub fn new(clock_speed: Option<Duration>) -> (r: Self)
        ensures
            r.clock_speed == clock_speed,
    {
        Self { clock_speed }
    }

    /// Settings with the default time per instruction.
    pub fn default() -> (r: Self)
        ensures
            r.clock_speed is None,
    {
        Self::new(None)
    }
}

/// Whether the program goes on after a step.
#[derive(Debug, Clone, Copy, PartialEq, Eq, Structural)]
pub enum ProgramState {
    Running,
    End,
}

/// How a tick's result reads for the host loop: the halt word ends the run, any other
/// executed instruction keeps it running, and errors pass through.
pub open spec fn program_state(t: Result<(u16, Ops), ChipeyteError>) -> Result<
    ProgramState,
    ChipeyteError,
> {
    match t {
        Ok((_, Ops::UNKNOWN(_))) => Ok(ProgramState::End),
        Ok(_) => Ok(ProgramState::Running),
        Err(e) => Err(e),
    }
}

/// A timer after one step of the external countdown: one less, stopping at zero.
pub open spec fn count_down(t: u8) -> u8 {
    if t > 0 {
        (t - 1) as u8
    } else {
        0
    }
}

/// A processor with its memory, and the pace at which instructions run.
pub struct ChipeyteInterpreter {
    cpu: CPU,
    memory: Memory,
    clock_speed: Duration,
}

impl ChipeyteInterpreter {
    /// The registers of the processor.
    pub closed spec fn registers(&self) -> Registers {
        self.cpu.registers
    }

    /// The contents of memory.
    pub closed spec fn memory(&self) -> Seq<u8> {
        self.memory@
    }

    /// The configured time per instruction.
    pub closed spec fn clock(&self) -> Duration {
        self.clock_speed
    }

    /// Memory has its full size.
    pub closed spec fn wf(&self) -> bool {
        self.memory.wf()
    }

    /// An interpreter with cleared registers, the program counter at `PROGRAM_START` and
    /// fresh memory, running at the configured pace.
    pub fn new(config: Config) -> (r: Self)
        ensures
            r.wf(),
            r.registers() == Registers::new_spec(PROGRAM_START),
            r.memory() == initial_memory(),
            r.memory().len() == MEMORY_SIZE,
            config.clock_speed matches Some(d) ==> r.clock() == d,
    {
        let clock_speed = match config.clock_speed {
            Some(d) => d,
            None => Duration::from_nanos(DEFAULT_CLOCK_NANOS),
        };
        Self { cpu: CPU::new(PROGRAM_START), memory: Memory::new(), clock_speed }
    }

    /// The configured time per instruction.
    pub fn clock_speed(&self) -> (r: Duration)
        ensures
            r == self.clock(),
    {
        self.clock_speed
    }

    /// Copies `program` into memory at `PROGRAM_START`. Returns `false`, changing
    /// nothing, when it does not fit in the program area.
    pub fn load_program(&mut self, program: &Vec<u8>) -> (r: bool)
        requires
            old(self).wf(),
        ensures
            final(self).wf(),
            final(self).registers() == old(self).registers(),
            final(self).clock() == old(self).clock(),
            r == (PROGRAM_START + program@.len() <= MEMORY_SIZE),
            r ==> final(self).memory() == old(self).memory().subrange(0, PROGRAM_START as int)
                + program@ + old(self).memory().subrange(
                PROGRAM_START + program@.len(),
                MEMORY_SIZE as int,
            ),
            !r ==> final(self).memory() == old(self).memory(),
    {
        if program.len() > MEMORY_SIZE - PROGRAM_START as usize {
            return false;
        }
        self.memory.load_program(PROGRAM_START as usize, program);
        assert(self.memory@ =~= old(self).memory@.subrange(0, PROGRAM_START as int) + program@
            + old(self).memory@.subrange(PROGRAM_START + program@.len(), MEMORY_SIZE as int));
        true
    }

    /// Runs one tick and reports whether the program goes on.
    pub fn step<D: Drawable, C: Controllable>(&mut self, screen: &mut D, controller: &mut C) -> (r:
        Result<ProgramState, ChipeyteError>)
        requires
            old(self).wf(),
        ensures
            final(self).wf(),
            final(self).clock() == old(self).clock(),
            exists|t: Result<(u16, Ops), ChipeyteError>|
                #[trigger] ticks(
                    machine(
                        old(self).registers(),
                        old(self).memory(),
                        old(screen).pixels(),
                        old(controller).pressed(),
                    ),
                    machine(
                        final(self).registers(),
                        final(self).memory(),
                        final(screen).pixels(),
                        final(controller).pressed(),
                    ),
                    t,
                ) && r == program_state(t),
    {
        let ghost pre = machine(
            self.registers(),
            self.memory(),
            screen.pixels(),
            controller.pressed(),
        );
        let t = self.cpu.tick(&mut self.memory, screen, controller);
        let r = match t {
            Ok((_, Ops::UNKNOWN(_))) => Ok(ProgramState::End),
            Ok(_) => Ok(ProgramState::Running),
            Err(e) => Err(e),
        };
        assert(ticks(
            pre,
            machine(self.registers(), self.memory(), screen.pixels(), controller.pressed()),
            t,
        ) && r == program_state(t));
        r
    }

    /// Turns the tone on while the sound timer is above zero and off once it reaches
    /// zero.
    pub fn update_sound<A: Audible>(&self, speaker: &mut A)
        ensures
            final(speaker).playing() == (self.registers().st > 0),
    {
        let st = self.cpu.registers.st;
        if st > 0 && !speaker.is_playing() {
            speaker.play_sound();
        } else if st < 1 && speaker.is_playing() {
            speaker.stop_sound();
        }
    }

    /// One step of the external countdown: both timers move one toward zero.
    pub fn decrement_timers(&mut self)
        ensures
            final(self).registers() == (Registers {
                dt: count_down(old(self).registers().dt),
                st: count_down(old(self).registers().st),
                ..old(self).registers()
            }),
            final(self).memory() == old(self).memory(),
            final(self).clock() == old(self).clock(),
            final(self).wf() == old(self).wf(),
    {
        if self.cpu.registers.dt > 0 {
            self.cpu.registers.dt = self.cpu.registers.dt - 1;
        }
        if self.cpu.registers.st > 0 {
            self.cpu.registers.st = self.cpu.registers.st - 1;
        }
    }

    /// Applies an input event to the keypad. Returns `true` when the event asks to quit.
    pub fn handle_user_action<C: Controllable>(action: UserAction, controller: &mut C) -> (quit:
        bool)
        ensures
            quit == (action == UserAction::Quit),
            final(controller).pressed() == match action {
                UserAction::KeyDown(Some(key)) => old(controller).pressed().insert(key),
                UserAction::KeyUp(Some(key)) => old(controller).pressed().remove(key),
                _ => old(controller).pressed(),
            },
    {
        match action {
            UserAction::Quit => true,
            UserAction::KeyDown(Some(key)) => {
                controller.press_key(key);
                false
            },
            UserAction::KeyUp(Some(key)) => {
                controller.release_key(key);
                false
            },
            _ => false,
        }
    }
}

} // verus!
