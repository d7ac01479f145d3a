use vstd::prelude::*;

use crate::errors::ChipeyteError;

verus! {

/// The register file: sixteen data registers `V0`..`VF`, the index register `I`,
/// the program counter, the stack pointer and the two timers.
///
/// `VF` doubles as the flag register written by arithmetic and drawing instructions.
#[derive(Debug, PartialEq, Eq, Structural)]
pub struct Registers {
    /// Index register; only the lowest 12 bits address memory.
    pub i: u16,
    /// Program counter.
    pub pc: u16,
    /// Stack pointer.
    pub sp: u8,
    pub v0: u8,
    pub v1: u8,
    pub v2: u8,
    pub v3: u8,
    pub v4: u8,
    pub v5: u8,
    pub v6: u8,
    pub v7: u8,
    pub v8: u8,
    pub v9: u8,
    pub va: u8,
    pub vb: u8,
    pub vc: u8,
    pub vd: u8,
    pub ve: u8,
    /// Flag register.
    pub vf: u8,
    /// Delay timer.
    pub dt: u8,
    /// Sound timer.
    pub st: u8,
}

/// One of the sixteen data registers, by name.
#[derive(Debug, Clone, Copy, PartialEq, Eq, Structural)]
pub enum NumericRegister {
    V0,
    V1,
    V2,
    V3,
    V4,
    V5,
    V6,
    V7,
    V8,
    V9,
    VA,
    VB,
    VC,
    VD,
    VE,
    VF,
}

impl NumericRegister {
    /// The index `0x0..=0xF` of this register.
    pub open spec fn index(self) -> int {
        match self {
            NumericRegister::V0 => 0,
            NumericRegister::V1 => 1,
            NumericRegister::V2 => 2,
            NumericRegister::V3 => 3,
            NumericRegister::V4 => 4,
            NumericRegister::V5 => 5,
            NumericRegister::V6 => 6,
            NumericRegister::V7 => 7,
            NumericRegister::V8 => 8,
            NumericRegister::V9 => 9,
            NumericRegister::VA => 10,
            NumericRegister::VB => 11,
            NumericRegister::VC => 12,
            NumericRegister::VD => 13,
            NumericRegister::VE => 14,
            NumericRegister::VF => 15,
        }
    }

    /// The register with the given index, or `BadDataRegister` when it is above `0xF`.
    pub fn try_from_index(register: u8) -> (r: Result<NumericRegister, ChipeyteError>)
        ensures
            register < 16 ==> (r matches Ok(n) && n.index() == register),
            register >= 16 ==> r == Err::<NumericRegister, ChipeyteError>(
                ChipeyteError::BadDataRegister(register),
            ),
    {
        match register {
            0x0 => Ok(NumericRegister::V0),
            0x1 => Ok(NumericRegister::V1),
            0x2 => Ok(NumericRegister::V2),
            0x3 => Ok(NumericRegister::V3),
            0x4 => Ok(NumericRegister::V4),
            0x5 => Ok(NumericRegister::V5),
            0x6 => Ok(NumericRegister::V6),
            0x7 => Ok(NumericRegister::V7),
            0x8 => Ok(NumericRegister::V8),
            0x9 => Ok(NumericRegister::V9),
            0xA => Ok(NumericRegister::VA),
            0xB => Ok(NumericRegister::VB),
            0xC => Ok(NumericRegister::VC),
            0xD => Ok(NumericRegister::VD),
            0xE => Ok(NumericRegister::VE),
            0xF => Ok(NumericRegister::VF),
            _ => Err(ChipeyteError::BadDataRegister(register)),
        }
    }
}

impl Registers {
    /// The value of data register `x` (`0x0..=0xF`).
    pub open spec fn v(self, x: int) -> u8 {
        if x == 0 { self.v0 }
        else if x == 1 { self.v1 }
        else if x == 2 { self.v2 }
        else if x == 3 { self.v3 }
        else if x == 4 { self.v4 }
        else if x == 5 { self.v5 }
        else if x == 6 { self.v6 }
        else if x == 7 { self.v7 }
        else if x == 8 { self.v8 }
        else if x == 9 { self.v9 }
        else if x == 10 { self.va }
        else if x == 11 { self.vb }
        else if x == 12 { self.vc }
        else if x == 13 { self.vd }
        else if x == 14 { self.ve }
        else { self.vf }
    }

    /// These registers with data register `x` set to `value` and all else kept.
    pub open spec fn with_v(self, x: int, value: u8) -> Registers {
        if x == 0 { Registers { v0: value, ..self } }
        else if x == 1 { Registers { v1: value, ..self } }
        else if x == 2 { Registers { v2: value, ..self } }
        else if x == 3 { Registers { v3: value, ..self } }
        else if x == 4 { Registers { v4: value, ..self } }
        else if x == 5 { Registers { v5: value, ..self } }
        else if x == 6 { Registers { v6: value, ..self } }
        else if x == 7 { Registers { v7: value, ..self } }
        else if x == 8 { Registers { v8: value, ..self } }
        else if x == 9 { Registers { v9: value, ..self } }
        else if x == 10 { Registers { va: value, ..self } }
        else if x == 11 { Registers { vb: value, ..self } }
        else if x == 12 { Registers { vc: value, ..self } }
        else if x == 13 { Registers { vd: value, ..self } }
        else if x == 14 { Registers { ve: value, ..self } }
        else { Registers { vf: value, ..self } }
    }

    /// Registers that are all zero except the program counter, which is `initial_pc`.
    pub open spec fn new_spec(initial_pc: u16) -> Registers {
        Registers {
            i: 0,
            pc: initial_pc,
            sp: 0,
            v0: 0,
            v1: 0,
            v2: 0,
            v3: 0,
            v4: 0,
            v5: 0,
            v6: 0,
            v7: 0,
            v8: 0,
            v9: 0,
            va: 0,
            vb: 0,
            vc: 0,
            vd: 0,
            ve: 0,
            vf: 0,
            dt: 0,
            st: 0,
        }
    }

    /// Registers that are all zero except the program counter.
    pub fn new(initial_pc: u16) -> (r: Registers)
        ensures
            r == Registers::new_spec(initial_pc),
    {
        Registers {
            i: 0,
            pc: initial_pc,
            sp: 0,
            v0: 0,
            v1: 0,
            v2: 0,
            v3: 0,
            v4: 0,
            v5: 0,
            v6: 0,
            v7: 0,
            v8: 0,
            v9: 0,
            va: 0,
            vb: 0,
            vc: 0,
            vd: 0,
            ve: 0,
            vf: 0,
            dt: 0,
            st: 0,
        }
    }

    pub(crate) fn v_at(&self, x: u8) -> (r: u8)
        requires
            x < 16,
        ensures
            r == self.v(x as int),
    {
        match x {
            0x0 => self.v0,
            0x1 => self.v1,
            0x2 => self.v2,
            0x3 => self.v3,
            0x4 => self.v4,
            0x5 => self.v5,
            0x6 => self.v6,
            0x7 => self.v7,
            0x8 => self.v8,
            0x9 => self.v9,
            0xa => self.va,
            0xb => self.vb,
            0xc => self.vc,
            0xd => self.vd,
            0xe => self.ve,
            _ => self.vf,
        }
    }

    pub(crate) fn set_v_at(&mut self, x: u8, value: u8)
        requires
            x < 16,
        ensures
            *final(self) == old(self).with_v(x as int, value),
    {
        match x {
            0x0 => self.v0 = value,
            0x1 => self.v1 = value,
            0x2 => self.v2 = value,
            0x3 => self.v3 = value,
            0x4 => self.v4 = value,
            0x5 => self.v5 = value,
            0x6 => self.v6 = value,
            0x7 => self.v7 = value,
            0x8 => self.v8 = value,
            0x9 => self.v9 = value,
            0xa => self.va = value,
            0xb => self.vb = value,
            0xc => self.vc = value,
            0xd => self.vd = value,
            0xe => self.ve = value,
            _ => self.vf = value,
        }
    }

    /// The value of data register `register`, or `BadDataRegister` when it is above `0xF`.
    pub fn get_data_register_value(&self, register: u8) -> (r: Result<u8, ChipeyteError>)
        ensures
            register < 16 ==> r == Ok::<u8, ChipeyteError>(self.v(register as int)),
            register >= 16 ==> r == Err::<u8, ChipeyteError>(
                ChipeyteError::BadDataRegister(register),
            ),
    {
        if register < 16 {
            Ok(self.v_at(register))
        } else {
            Err(ChipeyteError::BadDataRegister(register))
        }
    }

    /// Sets data register `register` to `value`; fails with `BadDataRegister`, changing
    /// nothing, when the index is above `0xF`.
    pub fn set_data_register_value(&mut self, register: u8, value: u8) -> (r: Result<
        (),
        ChipeyteError,
    >)
        ensures
            register < 16 ==> r == Ok::<(), ChipeyteError>(()) && *final(self) == old(
                self,
            ).with_v(register as int, value),
            register >= 16 ==> r == Err::<(), ChipeyteError>(
                ChipeyteError::BadDataRegister(register),
            ) && *final(self) == *old(self),
    {
        if register < 16 {
            self.set_v_at(register, value);
            Ok(())
        } else {
            Err(ChipeyteError::BadDataRegister(register))
        }
    }

    /// The value of the named data register.
    pub fn get_numeric_register(&self, register: NumericRegister) -> (r: u8)
        ensures
            r == self.v(register.index()),
    {
        match register {
            NumericRegister::V0 => self.v0,
            NumericRegister::V1 => self.v1,
            NumericRegister::V2 => self.v2,
            NumericRegister::V3 => self.v3,
            NumericRegister::V4 => self.v4,
            NumericRegister::V5 => self.v5,
            NumericRegister::V6 => self.v6,
            NumericRegister::V7 => self.v7,
            NumericRegister::V8 => self.v8,
            NumericRegister::V9 => self.v9,
            NumericRegister::VA => self.va,
            NumericRegister::VB => self.vb,
            NumericRegister::VC => self.vc,
            NumericRegister::VD => self.vd,
            NumericRegister::VE => self.ve,
            NumericRegister::VF => self.vf,
        }
    }

    /// Sets the named data register to `value`.
    pub fn set_numeric_register(&mut self, register: NumericRegister, value: u8)
        ensures
            *final(self) == old(self).with_v(register.index(), value),
    {
        match register {
            NumericRegister::V0 => self.v0 = value,
            NumericRegister::V1 => self.v1 = value,
            NumericRegister::V2 => self.v2 = value,
            NumericRegister::V3 => self.v3 = value,
            NumericRegister::V4 => self.v4 = value,
            NumericRegister::V5 => self.v5 = value,
            NumericRegister::V6 => self.v6 = value,
            NumericRegister::V7 => self.v7 = value,
            NumericRegister::V8 => self.v8 = value,
            NumericRegister::V9 => self.v9 = value,
            NumericRegister::VA => self.va = value,
            NumericRegister::VB => self.vb = value,
            NumericRegister::VC => self.vc = value,
            NumericRegister::VD => self.vd = value,
            NumericRegister::VE => self.ve = value,
            NumericRegister::VF => self.vf = value,
        }
    }
}

} // verus!
