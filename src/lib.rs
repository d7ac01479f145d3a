//! An interpreter for the Chip-8 virtual machine: a flat 4 KiB memory, sixteen
//! 8-bit registers, and a 64x32 monochrome display, driven one instruction per tick.
use vstd::prelude::*;

pub mod cpu;
pub mod decoder;
pub mod errors;
pub mod interface;
pub mod interpreter;
pub mod laws;
pub mod memory;
pub mod mock;
pub mod operations;
pub mod random;
pub mod registers;
pub mod sprite;

pub use cpu::CPU;
pub use decoder::decode;
pub use errors::ChipeyteError;
pub use interpreter::{ChipeyteInterpreter, Config, ProgramState};
pub use memory::Memory;
pub use operations::Ops;
pub use registers::Registers;

verus! {

/// Address at which programs are loaded and execution starts.
pub const PROGRAM_START: u16 = 0x0200;

/// Width of one instruction word in bytes.
pub const INSTRUCTION_LENGTH: u16 = 2;

/// Number of addressable bytes of memory.
pub const MEMORY_SIZE: usize = 4096;

/// Highest valid memory address.
pub const MAX_ADDRESS: u16 = 0x0fff;

} // verus!
