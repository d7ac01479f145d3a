use vstd::prelude::*;

use crate::errors::ChipeyteError;
use crate::interface::{Controllable, Drawable};
use crate::memory::{be_u16, glyph_address, Memory};
use crate::random::random_byte;
use crate::registers::Registers;
use crate::sprite::{collides, draw_sprite, sprite_pixels, xor_pixels};
use crate::{INSTRUCTION_LENGTH, MAX_ADDRESS, MEMORY_SIZE, PROGRAM_START};

verus! {

/// A 12-bit memory address.
pub type Addr = u16;

/// An 8-bit immediate value.
pub type Byte = u8;

/// A 4-bit quantity.
pub type Nibble = u8;

/// The index of a data register.
pub type V = u8;

/// One decoded instruction.
#[derive(Debug, PartialEq, Eq, Structural, Clone, Copy)]
pub enum Ops {
    /// A word that encodes no instruction.
    UNKNOWN(u16),
    /// `0nnn`: legacy system call; ignored.
    SYS(Addr),
    /// `00E0`: clear the display.
    CLS,
    /// `00EE`: return from a subroutine.
    RET,
    /// `1nnn`: jump to `nnn`.
    JP(Addr),
    /// `2nnn`: call the subroutine at `nnn`.
    CALL(Addr),
    /// `3xkk`: skip the next instruction if `Vx == kk`.
    SE(V, Byte),
    /// `4xkk`: skip the next instruction if `Vx != kk`.
    SNE(V, Byte),
    /// `5xy0`: skip the next instruction if `Vx == Vy`.
    SEV(V, V),
    /// `6xkk`: set `Vx = kk`.
    LD(V, Byte),
    /// `7xkk`: set `Vx = Vx + kk`, wrapping, without touching the flag.
    ADD(V, Byte),
    /// `8xy0`: set `Vx = Vy`.
    LDV(V, V),
    /// `8xy1`: set `Vx = Vx | Vy`.
    OR(V, V),
    /// `8xy2`: set `Vx = Vx & Vy`.
    AND(V, V),
    /// `8xy3`: set `Vx = Vx ^ Vy`.
    XOR(V, V),
    /// `8xy4`: set `Vx = Vx + Vy`, wrapping; `VF` = carry.
    ADDV(V, V),
    /// `8xy5`: set `Vx = Vx - Vy`, wrapping; `VF` = not borrow.
    SUB(V, V),
    /// `8xy6`: `VF` = lowest bit of `Vx`, then shift `Vx` right by one.
    SHR(V),
    /// `8xy7`: set `Vx = Vy - Vx`, wrapping; `VF` = not borrow.
    SUBN(V, V),
    /// `8xyE`: `VF` = highest bit of `Vx` (kept in place), then shift `Vx` left by one.
    SHL(V),
    /// `9xy0`: skip the next instruction if `Vx != Vy`.
    SNEV(V, V),
    /// `Annn`: set `I = nnn`.
    LDI(Addr),
    /// `Bnnn`: jump to `nnn + V0`.
    JPV0(Addr),
    /// `Cxkk`: set `Vx` to a random byte AND `kk`.
    RND(V, Byte),
    /// `Dxyn`: XOR the `n`-byte sprite at `I` onto the display at `(Vx, Vy)`; `VF` = collision.
    DRW(V, V, Nibble),
    /// `Ex9E`: skip the next instruction if the key in `Vx` is pressed.
    SKP(V),
    /// `ExA1`: skip the next instruction if the key in `Vx` is not pressed.
    SKNP(V),
    /// `Fx07`: set `Vx` to the delay timer.
    LDVDT(V),
    /// `Fx0A`: wait for a key press and store it in `Vx`.
    LDK(V),
    /// `Fx15`: set the delay timer to `Vx`.
    LDDT(V),
    /// `Fx18`: set the sound timer to `Vx`.
    LDST(V),
    /// `Fx1E`: set `I = I + Vx`.
    ADDI(V),
    /// `Fx29`: set `I` to the glyph of the hex digit in `Vx`.
    LDF(V),
    /// `Fx33`: store the decimal digits of `Vx` at `I`, `I + 1`, `I + 2`.
    LDB(V),
    /// `Fx55`: store `V0..=Vx` in memory starting at `I`.
    LDIV(V),
    /// `Fx65`: fill `V0..=Vx` from memory starting at `I`.
    LDVI(V),
}

/// Everything an instruction can read or change: the registers, the memory, the lit
/// pixels of the display and the pressed keys.
pub struct MachineState {
    pub registers: Registers,
    pub memory: Seq<u8>,
    pub pixels: Set<(u8, u8)>,
    pub keys: Set<u8>,
}

/// The machine state made of its four parts.
pub open spec fn machine(
    registers: Registers,
    memory: Seq<u8>,
    pixels: Set<(u8, u8)>,
    keys: Set<u8>,
) -> MachineState {
    MachineState { registers, memory, pixels, keys }
}

/// `s` with the registers replaced by `r`.
pub open spec fn with_registers(s: MachineState, r: Registers) -> MachineState {
    MachineState { registers: r, ..s }
}

/// `s` with the program counter set to `pc`.
pub open spec fn with_pc(s: MachineState, pc: u16) -> MachineState {
    with_registers(s, Registers { pc, ..s.registers })
}

/// The program counter after a conditional skip: one more instruction width when
/// `cond` holds, wrapping at 16 bits.
pub open spec fn skip_if(pc: u16, cond: bool) -> u16 {
    if cond {
        ((pc + INSTRUCTION_LENGTH) % 0x10000) as u16
    } else {
        pc
    }
}

/// `r` is the error `OpFailed` naming `op`.
pub open spec fn failed_with(r: Result<(), ChipeyteError>, op: Ops) -> bool {
    r matches Err(ChipeyteError::OpFailed(o, _)) && o == op
}

/// `mem` with the first `count` data registers of `regs` stored from address `i` on.
pub open spec fn store_registers(mem: Seq<u8>, regs: Registers, i: int, count: int) -> Seq<u8>
    decreases count,
{
    if count <= 0 {
        mem
    } else {
        store_registers(mem, regs, i, count - 1).update(i + count - 1, regs.v(count - 1))
    }
}

/// `regs` with the first `count` data registers filled from `mem` at address `i` on.
pub open spec fn load_registers(regs: Registers, mem: Seq<u8>, i: int, count: int) -> Registers
    decreases count,
{
    if count <= 0 {
        regs
    } else {
        load_registers(regs, mem, i, count - 1).with_v(count - 1, mem[i + count - 1])
    }
}

impl Ops {
    /// The operands have the shape decoding gives them: register indices below 16,
    /// addresses within 12 bits, sprite heights within 4 bits.
    pub open spec fn well_formed(self) -> bool {
        match self {
            Ops::UNKNOWN(_) | Ops::CLS | Ops::RET => true,
            Ops::SYS(a) | Ops::JP(a) | Ops::CALL(a) | Ops::LDI(a) | Ops::JPV0(a) => a
                <= MAX_ADDRESS,
            Ops::SE(x, _) | Ops::SNE(x, _) | Ops::LD(x, _) | Ops::ADD(x, _) | Ops::SHR(x)
            | Ops::SHL(x) | Ops::RND(x, _) | Ops::SKP(x) | Ops::SKNP(x) | Ops::LDVDT(x)
            | Ops::LDK(x) | Ops::LDDT(x) | Ops::LDST(x) | Ops::ADDI(x) | Ops::LDF(x)
            | Ops::LDB(x) | Ops::LDIV(x) | Ops::LDVI(x) => x < 16,
            Ops::SEV(x, y) | Ops::LDV(x, y) | Ops::OR(x, y) | Ops::AND(x, y) | Ops::XOR(x, y)
            | Ops::ADDV(x, y) | Ops::SUB(x, y) | Ops::SUBN(x, y) | Ops::SNEV(x, y) => x < 16 && y
                < 16,
            Ops::DRW(x, y, n) => x < 16 && y < 16 && n < 16,
        }
    }

    /// The first data register operand above `0xF`, in the order the instruction reads
    /// its operands; `None` when all are valid.
    pub open spec fn bad_register(self) -> Option<u8> {
        match self {
            Ops::SE(x, _) | Ops::SNE(x, _) | Ops::LD(x, _) | Ops::ADD(x, _) | Ops::SHR(x)
            | Ops::SHL(x) | Ops::RND(x, _) | Ops::SKP(x) | Ops::SKNP(x) | Ops::LDVDT(x)
            | Ops::LDK(x) | Ops::LDDT(x) | Ops::LDST(x) | Ops::ADDI(x) | Ops::LDF(x)
            | Ops::LDB(x) | Ops::LDIV(x) | Ops::LDVI(x) => if x >= 16 {
                Some(x)
            } else {
                None
            },
            Ops::LDV(x, y) => if y >= 16 {
                Some(y)
            } else if x >= 16 {
                Some(x)
            } else {
                None
            },
            Ops::SEV(x, y) | Ops::OR(x, y) | Ops::AND(x, y) | Ops::XOR(x, y) | Ops::ADDV(x, y)
            | Ops::SUB(x, y) | Ops::SUBN(x, y) | Ops::SNEV(x, y) | Ops::DRW(x, y, _) => if x
                >= 16 {
                Some(x)
            } else if y >= 16 {
                Some(y)
            } else {
                None
            },
            _ => None,
        }
    }

    /// Whether executing this operation, all of whose register operands are valid, can
    /// take `pre` to `post` with result `r`.
    pub open spec fn executes_valid(
        self,
        pre: MachineState,
        post: MachineState,
        r: Result<(), ChipeyteError>,
    ) -> bool {
        match self {
            Ops::UNKNOWN(..) | Ops::SYS(..) | Ops::RET | Ops::JP(..) | Ops::CALL(..)
            | Ops::JPV0(..) | Ops::SE(..) | Ops::SNE(..) | Ops::SEV(..) | Ops::SNEV(..) => {
                self.executes_control(pre, post, r)
            },
            Ops::LD(..) | Ops::ADD(..) | Ops::LDV(..) | Ops::OR(..) | Ops::AND(..)
            | Ops::XOR(..) | Ops::ADDV(..) | Ops::SUB(..) | Ops::SUBN(..) | Ops::SHR(..)
            | Ops::SHL(..) | Ops::RND(..) => {
                self.executes_arithmetic(pre, post, r)
            },
            Ops::LDI(..) | Ops::ADDI(..) | Ops::LDF(..) | Ops::LDB(..) | Ops::LDIV(..)
            | Ops::LDVI(..) | Ops::LDVDT(..) | Ops::LDDT(..) | Ops::LDST(..) => {
                self.executes_index(pre, post, r)
            },
            Ops::CLS | Ops::DRW(..) | Ops::SKP(..) | Ops::SKNP(..) | Ops::LDK(..) => {
                self.executes_io(pre, post, r)
            },
        }
    }

    /// The effect of jumps, calls, returns and conditional skips.
    pub open spec fn executes_control(
        self,
        pre: MachineState,
        post: MachineState,
        r: Result<(), ChipeyteError>,
    ) -> bool {
        let regs = pre.registers;
        let ok = r == Ok::<(), ChipeyteError>(());
        let fails = failed_with(r, self) && post == pre;
        match self {
            Ops::UNKNOWN(_) => fails,
            Ops::SYS(_) => ok && post == pre,
            Ops::RET => ok && post == with_registers(
                pre,
                Registers {
                    pc: be_u16(pre.memory[regs.sp as int], pre.memory[regs.sp + 1]),
                    sp: ((regs.sp + 0x100 - 2) % 0x100) as u8,
                    ..regs
                },
            ),
            Ops::JP(a) => if a > MAX_ADDRESS {
                fails
            } else {
                ok && post == with_pc(pre, a)
            },
            Ops::CALL(a) => if a > MAX_ADDRESS {
                fails
            } else {
                let sp = ((regs.sp + 2) % 0x100) as u8;
                ok && post == MachineState {
                    registers: Registers { sp, pc: a, ..regs },
                    memory: pre.memory.update(sp as int, (regs.pc / 0x100) as u8).update(
                        sp + 1,
                        (regs.pc % 0x100) as u8,
                    ),
                    ..pre
                }
            },
            Ops::JPV0(a) => {
                let target = a + regs.v0;
                if target < PROGRAM_START || target > MAX_ADDRESS {
                    fails
                } else {
                    ok && post == with_pc(pre, target as u16)
                }
            },
            Ops::SE(x, kk) => ok && post == with_pc(pre, skip_if(regs.pc, regs.v(x as int) == kk)),
            Ops::SNE(x, kk) => ok && post == with_pc(
                pre,
                skip_if(regs.pc, regs.v(x as int) != kk),
            ),
            Ops::SEV(x, y) => ok && post == with_pc(
                pre,
                skip_if(regs.pc, regs.v(x as int) == regs.v(y as int)),
            ),
            Ops::SNEV(x, y) => ok && post == with_pc(
                pre,
                skip_if(regs.pc, regs.v(x as int) != regs.v(y as int)),
            ),
            _ => false,
        }
    }

    /// The effect of register loads and arithmetic.
    pub open spec fn executes_arithmetic(
        self,
        pre: MachineState,
        post: MachineState,
        r: Result<(), ChipeyteError>,
    ) -> bool {
        let regs = pre.registers;
        let ok = r == Ok::<(), ChipeyteError>(());
        let fails = failed_with(r, self) && post == pre;
        match self {
            Ops::LD(x, kk) => ok && post == with_registers(pre, regs.with_v(x as int, kk)),
            Ops::ADD(x, kk) => ok && post == with_registers(
                pre,
                regs.with_v(x as int, ((regs.v(x as int) + kk) % 0x100) as u8),
            ),
            Ops::LDV(x, y) => ok && post == with_registers(
                pre,
                regs.with_v(x as int, regs.v(y as int)),
            ),
            Ops::OR(x, y) => ok && post == with_registers(
                pre,
                regs.with_v(x as int, regs.v(x as int) | regs.v(y as int)),
            ),
            Ops::AND(x, y) => ok && post == with_registers(
                pre,
                regs.with_v(x as int, regs.v(x as int) & regs.v(y as int)),
            ),
            Ops::XOR(x, y) => ok && post == with_registers(
                pre,
                regs.with_v(x as int, regs.v(x as int) ^ regs.v(y as int)),
            ),
            Ops::ADDV(x, y) => {
                let sum = regs.v(x as int) + regs.v(y as int);
                ok && post == with_registers(
                    pre,
                    regs.with_v(x as int, (sum % 0x100) as u8).with_v(
                        0xF,
                        if sum > 0xFF {
                            1
                        } else {
                            0
                        },
                    ),
                )
            },
            Ops::SUB(x, y) => {
                let (a, b) = (regs.v(x as int), regs.v(y as int));
                ok && post == with_registers(
                    pre,
                    regs.with_v(x as int, ((a - b + 0x100) % 0x100) as u8).with_v(
                        0xF,
                        if a >= b {
                            1
                        } else {
                            0
                        },
                    ),
                )
            },
            Ops::SUBN(x, y) => {
                let (a, b) = (regs.v(x as int), regs.v(y as int));
                ok && post == with_registers(
                    pre,
                    regs.with_v(x as int, ((b - a + 0x100) % 0x100) as u8).with_v(
                        0xF,
                        if b >= a {
                            1
                        } else {
                            0
                        },
                    ),
                )
            },
            Ops::SHR(x) => {
                let a = regs.v(x as int);
                ok && post == with_registers(
                    pre,
                    regs.with_v(0xF, a & 1).with_v(x as int, a >> 1u8),
                )
            },
            Ops::SHL(x) => {
                let a = regs.v(x as int);
                ok && post == with_registers(
                    pre,
                    regs.with_v(0xF, a & 0x80).with_v(x as int, a << 1u8),
                )
            },
            Ops::RND(x, kk) => {
                let value = post.registers.v(x as int);
                ok && value & kk == value && post == with_registers(
                    pre,
                    regs.with_v(x as int, value),
                )
            },
            _ => false,
        }
    }

    /// The effect of the index register, memory blocks and timers.
    pub open spec fn executes_index(
        self,
        pre: MachineState,
        post: MachineState,
        r: Result<(), ChipeyteError>,
    ) -> bool {
        let regs = pre.registers;
        let ok = r == Ok::<(), ChipeyteError>(());
        let fails = failed_with(r, self) && post == pre;
        match self {
            Ops::LDI(a) => if a > MAX_ADDRESS {
                fails
            } else {
                ok && post == with_registers(pre, Registers { i: a, ..regs })
            },
            Ops::ADDI(x) => {
                let target = regs.i + regs.v(x as int);
                if target > MAX_ADDRESS {
                    fails
                } else {
                    ok && post == with_registers(pre, Registers { i: target as u16, ..regs })
                }
            },
            Ops::LDF(x) => {
                let digit = regs.v(x as int);
                if digit > 15 {
                    r == Err::<(), ChipeyteError>(ChipeyteError::UnsupportedSprite(digit)) && post
                        == pre
                } else {
                    ok && post == with_registers(
                        pre,
                        Registers { i: glyph_address(digit as int) as u16, ..regs },
                    )
                }
            },
            Ops::LDB(x) => if regs.i + 2 > MAX_ADDRESS {
                fails
            } else {
                let value = regs.v(x as int);
                ok && post == MachineState {
                    memory: pre.memory.update(regs.i as int, value / 100).update(
                        regs.i + 1,
                        (value / 10) % 10,
                    ).update(regs.i + 2, value % 10),
                    ..pre
                }
            },
            Ops::LDIV(x) => if regs.i + x > MAX_ADDRESS {
                fails
            } else {
                ok && post == MachineState {
                    memory: store_registers(pre.memory, regs, regs.i as int, x + 1),
                    ..pre
                }
            },
            Ops::LDVI(x) => if regs.i + x > MAX_ADDRESS {
                fails
            } else {
                ok && post == with_registers(
                    pre,
                    load_registers(regs, pre.memory, regs.i as int, x + 1),
                )
            },
            Ops::LDVDT(x) => ok && post == with_registers(pre, regs.with_v(x as int, regs.dt)),
            Ops::LDDT(x) => ok && post == with_registers(
                pre,
                Registers { dt: regs.v(x as int), ..regs },
            ),
            Ops::LDST(x) => ok && post == with_registers(
                pre,
                Registers { st: regs.v(x as int), ..regs },
            ),
            _ => false,
        }
    }

    /// The effect of the display and the keypad.
    pub open spec fn executes_io(
        self,
        pre: MachineState,
        post: MachineState,
        r: Result<(), ChipeyteError>,
    ) -> bool {
        let regs = pre.registers;
        let ok = r == Ok::<(), ChipeyteError>(());
        let fails = failed_with(r, self) && post == pre;
        match self {
            Ops::CLS => ok && post == MachineState { pixels: Set::empty(), ..pre },
            Ops::DRW(x, y, n) => if n > 15 || regs.i + n > MEMORY_SIZE {
                fails
            } else {
                let sprite = sprite_pixels(
                    pre.memory,
                    regs.i as int,
                    n as int,
                    regs.v(x as int),
                    regs.v(y as int),
                );
                ok && post == MachineState {
                    registers: regs.with_v(
                        0xF,
                        if collides(pre.pixels, sprite) {
                            1
                        } else {
                            0
                        },
                    ),
                    pixels: xor_pixels(pre.pixels, sprite),
                    ..pre
                }
            },
            Ops::SKP(x) => ok && post == with_pc(
                pre,
                skip_if(regs.pc, pre.keys.contains(regs.v(x as int))),
            ),
            Ops::SKNP(x) => ok && post == with_pc(
                pre,
                skip_if(regs.pc, !pre.keys.contains(regs.v(x as int))),
            ),
            Ops::LDK(x) => if pre.keys == Set::<u8>::empty() {
                ok && post == with_pc(
                    pre,
                    ((regs.pc + 0x10000 - INSTRUCTION_LENGTH) % 0x10000) as u16,
                )
            } else {
                let key = post.registers.v(x as int);
                ok && pre.keys.contains(key) && post == MachineState {
                    registers: regs.with_v(x as int, key),
                    keys: pre.keys.remove(key),
                    ..pre
                }
            },
            _ => false,
        }
    }
}

/// Bytes taken by one return address on the stack.
const STACK_ENTRY_LENGTH: u8 = 2;

impl Ops {
    /// The first data register operand above `0xF`, if any.
    pub fn first_bad_register(&self) -> (r: Option<u8>)
        ensures
            r == self.bad_register(),
    {
        match *self {
            Ops::SE(x, _) | Ops::SNE(x, _) | Ops::LD(x, _) | Ops::ADD(x, _) | Ops::SHR(x)
            | Ops::SHL(x) | Ops::RND(x, _) | Ops::SKP(x) | Ops::SKNP(x) | Ops::LDVDT(x)
            | Ops::LDK(x) | Ops::LDDT(x) | Ops::LDST(x) | Ops::ADDI(x) | Ops::LDF(x)
            | Ops::LDB(x) | Ops::LDIV(x) | Ops::LDVI(x) => if x >= 16 {
                Some(x)
            } else {
                None
            },
            Ops::LDV(x, y) => if y >= 16 {
                Some(y)
            } else if x >= 16 {
                Some(x)
            } else {
                None
            },
            Ops::SEV(x, y) | Ops::OR(x, y) | Ops::AND(x, y) | Ops::XOR(x, y) | Ops::ADDV(x, y)
            | Ops::SUB(x, y) | Ops::SUBN(x, y) | Ops::SNEV(x, y) | Ops::DRW(x, y, _) => if x
                >= 16 {
                Some(x)
            } else if y >= 16 {
                Some(y)
            } else {
                None
            },
            _ => None,
        }
    }
}

/// The error for an operation whose memory address lies outside memory.
fn out_of_bounds(op: Ops) -> (r: ChipeyteError)
    ensures
        r matches ChipeyteError::OpFailed(o, _) && o == op,
{
    ChipeyteError::OpFailed(op, "Memory address is out-of-bounds".to_string())
}

/// Advances the program counter past the next instruction when `cond` holds.
fn skip_next_if(registers: &mut Registers, cond: bool)
    ensures
        *final(registers) == (Registers {
            pc: skip_if(old(registers).pc, cond),
            ..*old(registers)
        }),
{
    if cond {
        registers.pc = registers.pc.wrapping_add(INSTRUCTION_LENGTH);
    }
}

/// Stores `V0..=Vx` in memory from the index register on.
fn store_block(registers: &Registers, memory: &mut Memory, vx: u8)
    requires
        vx < 16,
        registers.i + vx <= MAX_ADDRESS,
        old(memory).wf(),
    ensures
        final(memory).wf(),
        final(memory)@ == store_registers(old(memory)@, *registers, registers.i as int, vx + 1),
{
    let base = registers.i as usize;
    let mut reg: u8 = 0;
    while reg <= vx
        invariant
            vx < 16,
            reg <= vx + 1,
            base == registers.i,
            base + vx <= MAX_ADDRESS,
            memory.wf(),
            memory@ == store_registers(old(memory)@, *registers, base as int, reg as int),
        decreases vx + 1 - reg,
    {
        let value = registers.v_at(reg);
        memory.set(base + reg as usize, value);
        reg = reg + 1;
    }
}

/// Fills `V0..=Vx` from memory from the index register on.
fn load_block(registers: &mut Registers, memory: &Memory, vx: u8)
    requires
        vx < 16,
        old(registers).i + vx <= MAX_ADDRESS,
        memory.wf(),
    ensures
        *final(registers) == load_registers(
            *old(registers),
            memory@,
            old(registers).i as int,
            vx + 1,
        ),
{
    let base = registers.i as usize;
    let mut reg: u8 = 0;
    while reg <= vx
        invariant
            vx < 16,
            reg <= vx + 1,
            base == old(registers).i,
            base + vx <= MAX_ADDRESS,
            memory.wf(),
            *registers == load_registers(*old(registers), memory@, base as int, reg as int),
        decreases vx + 1 - reg,
    {
        let value = memory.get(base + reg as usize);
        registers.set_v_at(reg, value);
        reg = reg + 1;
    }
}

/// Executes a jump, call, return or conditional skip.
fn execute_control<D: Drawable, C: Controllable>(
    op: Ops,
    registers: &mut Registers,
    memory: &mut Memory,
    screen: &mut D,
    controller: &mut C,
) -> (r: Result<(), ChipeyteError>)
    requires
        op is UNKNOWN || op is SYS || op is RET || op is JP || op is CALL || op is JPV0
            || op is SE || op is SNE || op is SEV || op is SNEV,
        op.bad_register() is None,
        old(memory).wf(),
    ensures
        final(memory).wf(),
        op.executes_control(
            machine(*old(registers), old(memory)@, old(screen).pixels(), old(controller).pressed()),
            machine(
                *final(registers),
                final(memory)@,
                final(screen).pixels(),
                final(controller).pressed(),
            ),
            r,
        ),
{
    match op {
        Ops::UNKNOWN(_) => Err(ChipeyteError::OpFailed(op, "Unknown operation".to_string())),
        Ops::SYS(_) => Ok(()),
        Ops::RET => {
            registers.pc = memory.get_u16(registers.sp as usize);
            registers.sp = registers.sp.wrapping_sub(STACK_ENTRY_LENGTH);
            Ok(())
        },
        Ops::JP(address) => {
            if address > MAX_ADDRESS {
                return Err(out_of_bounds(op));
            }
            registers.pc = address;
            Ok(())
        },
        Ops::CALL(address) => {
            if address > MAX_ADDRESS {
                return Err(out_of_bounds(op));
            }
            registers.sp = registers.sp.wrapping_add(STACK_ENTRY_LENGTH);
            memory.set_u16(registers.sp as usize, registers.pc);
            registers.pc = address;
            Ok(())
        },
        Ops::JPV0(address) => {
            let target: u32 = address as u32 + registers.v0 as u32;
            if target < PROGRAM_START as u32 || target > MAX_ADDRESS as u32 {
                return Err(
                    ChipeyteError::OpFailed(
                        op,
                        "Memory address is outside of program area 0200-0fff".to_string(),
                    ),
                );
            }
            registers.pc = target as u16;
            Ok(())
        },
        Ops::SE(vx, byte) => {
            let cond = registers.v_at(vx) == byte;
            skip_next_if(registers, cond);
            Ok(())
        },
        Ops::SNE(vx, byte) => {
            let cond = registers.v_at(vx) != byte;
            skip_next_if(registers, cond);
            Ok(())
        },
        Ops::SEV(vx, vy) => {
            let cond = registers.v_at(vx) == registers.v_at(vy);
            skip_next_if(registers, cond);
            Ok(())
        },
        Ops::SNEV(vx, vy) => {
            let cond = registers.v_at(vx) != registers.v_at(vy);
            skip_next_if(registers, cond);
            Ok(())
        },
        _ => Err(ChipeyteError::OpNotImplemented(op)),
    }
}

/// Executes a register load or arithmetic instruction.
#[verifier::rlimit(100)]
#[verifier::spinoff_prover]
fn execute_arithmetic<D: Drawable, C: Controllable>(
    op: Ops,
    registers: &mut Registers,
    memory: &mut Memory,
    screen: &mut D,
    controller: &mut C,
) -> (r: Result<(), ChipeyteError>)
    requires
        op is LD || op is ADD || op is LDV || op is OR || op is AND || op is XOR || op is ADDV
            || op is SUB || op is SUBN || op is SHR || op is SHL || op is RND,
        op.bad_register() is None,
        old(memory).wf(),
    ensures
        final(memory).wf(),
        op.executes_arithmetic(
            machine(*old(registers), old(memory)@, old(screen).pixels(), old(controller).pressed()),
            machine(
                *final(registers),
                final(memory)@,
                final(screen).pixels(),
                final(controller).pressed(),
            ),
            r,
        ),
{
    match op {
        Ops::LD(vx, byte) => {
            registers.set_v_at(vx, byte);
            Ok(())
        },
        Ops::ADD(vx, byte) => {
            let value = registers.v_at(vx);
            registers.set_v_at(vx, byte.wrapping_add(value));
            Ok(())
        },
        Ops::LDV(vx, vy) => {
            let y = registers.v_at(vy);
            registers.set_v_at(vx, y);
            Ok(())
        },
        Ops::OR(vx, vy) => {
            let (x, y) = (registers.v_at(vx), registers.v_at(vy));
            registers.set_v_at(vx, x | y);
            Ok(())
        },
        Ops::AND(vx, vy) => {
            let (x, y) = (registers.v_at(vx), registers.v_at(vy));
            registers.set_v_at(vx, x & y);
            Ok(())
        },
        Ops::XOR(vx, vy) => {
            let (x, y) = (registers.v_at(vx), registers.v_at(vy));
            registers.set_v_at(vx, x ^ y);
            Ok(())
        },
        Ops::ADDV(vx, vy) => {
            let (x, y) = (registers.v_at(vx), registers.v_at(vy));
            let sum: u16 = x as u16 + y as u16;
            registers.set_v_at(vx, (sum % 0x100) as u8);
            registers.set_v_at(0xF, if sum > 0xFF { 1 } else { 0 });
            Ok(())
        },
        Ops::SUB(vx, vy) => {
            let (x, y) = (registers.v_at(vx), registers.v_at(vy));
            registers.set_v_at(vx, x.wrapping_sub(y));
            registers.set_v_at(0xF, if x >= y { 1 } else { 0 });
            Ok(())
        },
        Ops::SUBN(vx, vy) => {
            let (x, y) = (registers.v_at(vx), registers.v_at(vy));
            registers.set_v_at(vx, y.wrapping_sub(x));
            registers.set_v_at(0xF, if y >= x { 1 } else { 0 });
            Ok(())
        },
        Ops::SHR(vx) => {
            let x = registers.v_at(vx);
            registers.set_v_at(0xF, x & 0b0000_0001);
            registers.set_v_at(vx, x >> 1u8);
            Ok(())
        },
        Ops::SHL(vx) => {
            let x = registers.v_at(vx);
            registers.set_v_at(0xF, x & 0b1000_0000);
            registers.set_v_at(vx, x << 1u8);
            Ok(())
        },
        Ops::RND(vx, byte) => {
            let random = random_byte();
            registers.set_v_at(vx, byte & random);
            proof {
                assert((byte & random) & byte == byte & random) by (bit_vector);
            }
            Ok(())
        },
        _ => Err(ChipeyteError::OpNotImplemented(op)),
    }
}

/// Executes an instruction on the index register, memory blocks or timers.
fn execute_index<D: Drawable, C: Controllable>(
    op: Ops,
    registers: &mut Registers,
    memory: &mut Memory,
    screen: &mut D,
    controller: &mut C,
) -> (r: Result<(), ChipeyteError>)
    requires
        op is LDI || op is ADDI || op is LDF || op is LDB || op is LDIV || op is LDVI
            || op is LDVDT || op is LDDT || op is LDST,
        op.bad_register() is None,
        old(memory).wf(),
    ensures
        final(memory).wf(),
        op.executes_index(
            machine(*old(registers), old(memory)@, old(screen).pixels(), old(controller).pressed()),
            machine(
                *final(registers),
                final(memory)@,
                final(screen).pixels(),
                final(controller).pressed(),
            ),
            r,
        ),
{
    match op {
        Ops::LDI(address) => {
            if address > MAX_ADDRESS {
                return Err(out_of_bounds(op));
            }
            registers.i = address;
            Ok(())
        },
        Ops::ADDI(vx) => {
            let target: u32 = registers.i as u32 + registers.v_at(vx) as u32;
            if target > MAX_ADDRESS as u32 {
                return Err(
                    ChipeyteError::OpFailed(
                        op,
                        "Address is outside of memory 0000-0fff".to_string(),
                    ),
                );
            }
            registers.i = target as u16;
            Ok(())
        },
        Ops::LDF(vx) => {
            let digit = registers.v_at(vx);
            match Memory::get_sprite_location_for(digit) {
                Ok(address) => {
                    registers.i = address;
                    Ok(())
                },
                Err(e) => Err(e),
            }
        },
        Ops::LDB(vx) => {
            if registers.i > MAX_ADDRESS - 2 {
                return Err(out_of_bounds(op));
            }
            let number = registers.v_at(vx);
            let base = registers.i as usize;
            memory.set(base, number / 100);
            memory.set(base + 1, (number / 10) % 10);
            memory.set(base + 2, number % 10);
            Ok(())
        },
        Ops::LDIV(vx) => {
            if registers.i as u32 + vx as u32 > MAX_ADDRESS as u32 {
                return Err(out_of_bounds(op));
            }
            store_block(registers, memory, vx);
            Ok(())
        },
        Ops::LDVI(vx) => {
            if registers.i as u32 + vx as u32 > MAX_ADDRESS as u32 {
                return Err(out_of_bounds(op));
            }
            load_block(registers, memory, vx);
            Ok(())
        },
        Ops::LDVDT(vx) => {
            let dt = registers.dt;
            registers.set_v_at(vx, dt);
            Ok(())
        },
        Ops::LDDT(vx) => {
            registers.dt = registers.v_at(vx);
            Ok(())
        },
        Ops::LDST(vx) => {
            registers.st = registers.v_at(vx);
            Ok(())
        },
        _ => Err(ChipeyteError::OpNotImplemented(op)),
    }
}

/// Executes an instruction on the display or the keypad.
fn execute_io<D: Drawable, C: Controllable>(
    op: Ops,
    registers: &mut Registers,
    memory: &mut Memory,
    screen: &mut D,
    controller: &mut C,
) -> (r: Result<(), ChipeyteError>)
    requires
        op is CLS || op is DRW || op is SKP || op is SKNP || op is LDK,
        op.bad_register() is None,
        old(memory).wf(),
    ensures
        final(memory).wf(),
        op.executes_io(
            machine(*old(registers), old(memory)@, old(screen).pixels(), old(controller).pressed()),
            machine(
                *final(registers),
                final(memory)@,
                final(screen).pixels(),
                final(controller).pressed(),
            ),
            r,
        ),
{
    match op {
        Ops::CLS => {
            screen.clear();
            Ok(())
        },
        Ops::DRW(vx, vy, n) => {
            if n > 15 {
                return Err(
                    ChipeyteError::OpFailed(op, "Sprite height is above 15 rows".to_string()),
                );
            }
            if registers.i as usize + n as usize > MEMORY_SIZE {
                return Err(out_of_bounds(op));
            }
            draw_sprite(registers, memory, screen, vx, vy, n);
            Ok(())
        },
        Ops::SKP(vx) => {
            let cond = controller.is_pressed(registers.v_at(vx));
            skip_next_if(registers, cond);
            Ok(())
        },
        Ops::SKNP(vx) => {
            let cond = !controller.is_pressed(registers.v_at(vx));
            skip_next_if(registers, cond);
            Ok(())
        },
        Ops::LDK(vx) => {
            match controller.get_pressed_key() {
                Some(key) => registers.set_v_at(vx, key),
                None => registers.pc = registers.pc.wrapping_sub(INSTRUCTION_LENGTH),
            }
            Ok(())
        },
        _ => Err(ChipeyteError::OpNotImplemented(op)),
    }
}

/// The execution of one decoded instruction against the machine.
pub trait Callable {
    /// Whether executing `self` can take `pre` to `post` with result `r`.
    spec fn executes(
        &self,
        pre: MachineState,
        post: MachineState,
        r: Result<(), ChipeyteError>,
    ) -> bool;

    /// Executes the instruction on the registers, memory, display and keypad.
    fn call<D: Drawable, C: Controllable>(
        &self,
        registers: &mut Registers,
        memory: &mut Memory,
        screen: &mut D,
        controller: &mut C,
    ) -> (r: Result<(), ChipeyteError>)
        requires
            old(memory).wf(),
        ensures
            final(memory).wf(),
            self.executes(
                machine(
                    *old(registers),
                    old(memory)@,
                    old(screen).pixels(),
                    old(controller).pressed(),
                ),
                machine(
                    *final(registers),
                    final(memory)@,
                    final(screen).pixels(),
                    final(controller).pressed(),
                ),
                r,
            ),
    ;
}

impl Callable for Ops {
    /// A bad register operand fails with `BadDataRegister` and changes nothing; otherwise
    /// the instruction behaves as `executes_valid` states.
    open spec fn executes(
        &self,
        pre: MachineState,
        post: MachineState,
        r: Result<(), ChipeyteError>,
    ) -> bool {
        match self.bad_register() {
            Some(b) => r == Err::<(), ChipeyteError>(ChipeyteError::BadDataRegister(b)) && post
                == pre,
            None => {
                self.executes_valid(pre, post, r)
            },
        }
    }

    #[verifier::rlimit(100)]
    #[verifier::spinoff_prover]
    fn call<D: Drawable, C: Controllable>(
        &self,
        registers: &mut Registers,
        memory: &mut Memory,
        screen: &mut D,
        controller: &mut C,
    ) -> (r: Result<(), ChipeyteError>) {
        if let Some(b) = self.first_bad_register() {
            return Err(ChipeyteError::BadDataRegister(b));
        }
        let op = *self;
        match op {
            Ops::UNKNOWN(..) | Ops::SYS(..) | Ops::RET | Ops::JP(..) | Ops::CALL(..)
            | Ops::JPV0(..) | Ops::SE(..) | Ops::SNE(..) | Ops::SEV(..) | Ops::SNEV(..) => {
                execute_control(op, registers, memory, screen, controller)
            },
            Ops::LD(..) | Ops::ADD(..) | Ops::LDV(..) | Ops::OR(..) | Ops::AND(..)
            | Ops::XOR(..) | Ops::ADDV(..) | Ops::SUB(..) | Ops::SUBN(..) | Ops::SHR(..)
            | Ops::SHL(..) | Ops::RND(..) => {
                execute_arithmetic(op, registers, memory, screen, controller)
            },
            Ops::LDI(..) | Ops::ADDI(..) | Ops::LDF(..) | Ops::LDB(..) | Ops::LDIV(..)
            | Ops::LDVI(..) | Ops::LDVDT(..) | Ops::LDDT(..) | Ops::LDST(..) => {
                execute_index(op, registers, memory, screen, controller)
            },
            Ops::CLS | Ops::DRW(..) | Ops::SKP(..) | Ops::SKNP(..) | Ops::LDK(..) => {
                execute_io(op, registers, memory, screen, controller)
            },
        }
    }
}

} // verus!
