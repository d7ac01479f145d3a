use vstd::prelude::*;

use crate::operations::Ops;

verus! {

/// A condition that halts the interpreter.
#[derive(Debug)]
pub enum ChipeyteError {
    /// A recognised operation that has no handler.
    OpNotImplemented(Ops),
    /// A data register index outside `0x0..=0xF`.
    BadDataRegister(u8),
    /// An operation whose operands or addresses failed validation, with the cause.
    OpFailed(Ops, String),
    /// A font glyph was requested for a value that is not a hex digit.
    UnsupportedSprite(u8),
    /// A key code outside `0x0..=0xF`.
    UnknownKey(u8),
}

} // verus!
