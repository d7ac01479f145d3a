//! Properties that hold across operations and calls.
use vstd::prelude::*;

use crate::decoder::decode_spec;
use crate::errors::ChipeyteError;
use crate::memory::be_u16;
use crate::operations::{failed_with, Callable, MachineState, Ops};
use crate::{MAX_ADDRESS, MEMORY_SIZE};

verus! {

/// Decoding is total: every 16-bit word decodes to exactly one operation, and its
/// operands have the decoded shape (register indices below 16, 12-bit addresses, 4-bit
/// sprite heights), so a decoded operation never fails for a bad register.
pub proof fn decode_is_total(w: u16)
    ensures
        decode_spec(w).well_formed(),
        decode_spec(w).bad_register() is None,
{
}

/// Decoding has no hidden state: the same word decodes to the same operation every
/// time.
pub proof fn decode_is_deterministic(a: u16, b: u16)
    requires
        a == b,
    ensures
        decode_spec(a) == decode_spec(b),
{
}

/// A call to an address within memory, followed by a return, succeeds twice and
/// restores every register: the call sets the program counter to the target and moves
/// the stack pointer up one slot, and the return brings both back.
pub proof fn call_then_return(
    a: u16,
    s0: MachineState,
    s1: MachineState,
    s2: MachineState,
    r1: Result<(), ChipeyteError>,
    r2: Result<(), ChipeyteError>,
)
    requires
        a <= MAX_ADDRESS,
        s0.memory.len() == MEMORY_SIZE,
        Ops::CALL(a).executes(s0, s1, r1),
        Ops::RET.executes(s1, s2, r2),
    ensures
        r1 is Ok,
        r2 is Ok,
        s1.registers.pc == a,
        s1.registers.sp == (s0.registers.sp + 2) % 0x100,
        s2.registers == s0.registers,
        s2.pixels == s0.pixels,
        s2.keys == s0.keys,
{
    let sp = s1.registers.sp;
    let pc = s0.registers.pc;
    assert(s1.memory[sp as int] == (pc / 0x100) as u8);
    assert(s1.memory[sp + 1] == (pc % 0x100) as u8);
    assert(be_u16((pc / 0x100) as u8, (pc % 0x100) as u8) == pc);
}

/// A jump or a call to an address above `0x0FFF` fails with `OpFailed` naming that
/// operation and changes nothing.
pub proof fn jump_or_call_out_of_bounds_fails(
    op: Ops,
    a: u16,
    pre: MachineState,
    post: MachineState,
    r: Result<(), ChipeyteError>,
)
    requires
        op == Ops::JP(a) || op == Ops::CALL(a),
        a > MAX_ADDRESS,
        op.executes(pre, post, r),
    ensures
        failed_with(r, op),
        post == pre,
{
}

/// Add-with-carry on two distinct registers, neither the flag register, loses nothing:
/// the new value plus 256 times the flag equals the sum, and the flag is 1 exactly when
/// the sum exceeds 255.
pub proof fn add_with_carry_is_exact(
    x: u8,
    y: u8,
    pre: MachineState,
    post: MachineState,
    r: Result<(), ChipeyteError>,
)
    requires
        x < 15,
        y < 16,
        Ops::ADDV(x, y).executes(pre, post, r),
    ensures
        r is Ok,
        post.registers.v(x as int) + 0x100 * post.registers.vf == pre.registers.v(x as int)
            + pre.registers.v(y as int),
        post.registers.vf == 1 <==> pre.registers.v(x as int) + pre.registers.v(y as int) > 0xFF,
{
}

/// Subtraction on a register other than the flag register wraps modulo 256 and sets the
/// flag to 1 exactly when no borrow occurs; adding the subtrahend back gives the
/// minuend.
pub proof fn subtract_sets_not_borrow(
    x: u8,
    y: u8,
    pre: MachineState,
    post: MachineState,
    r: Result<(), ChipeyteError>,
)
    requires
        x < 15,
        y < 16,
        Ops::SUB(x, y).executes(pre, post, r),
    ensures
        r is Ok,
        post.registers.vf == 1 <==> pre.registers.v(x as int) >= pre.registers.v(y as int),
        post.registers.vf == 0 <==> pre.registers.v(x as int) < pre.registers.v(y as int),
        (post.registers.v(x as int) + pre.registers.v(y as int)) % 0x100 == pre.registers.v(
            x as int,
        ),
{
}

} // verus!
