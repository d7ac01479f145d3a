use vstd::prelude::*;

use crate::operations::{Addr, Byte, Nibble, Ops};

verus! {

/// The first (most significant) nibble of `w`.
pub open spec fn nibble0(w: u16) -> u8 {
    (w / 0x1000) as u8
}

/// The second nibble of `w`.
pub open spec fn nibble1(w: u16) -> u8 {
    ((w / 0x100) % 0x10) as u8
}

/// The third nibble of `w`.
pub open spec fn nibble2(w: u16) -> u8 {
    ((w / 0x10) % 0x10) as u8
}

/// The last (least significant) nibble of `w`.
pub open spec fn nibble3(w: u16) -> u8 {
    (w % 0x10) as u8
}

/// The byte made of the nibbles `hi`, `lo`.
pub open spec fn byte_of(hi: u8, lo: u8) -> u8 {
    (hi * 0x10 + lo) as u8
}

/// The 12-bit address made of the nibbles `hi`, `mid`, `lo`.
pub open spec fn addr_of(hi: u8, mid: u8, lo: u8) -> u16 {
    (hi * 0x100 + mid * 0x10 + lo) as u16
}

/// The operation that the instruction word `w` encodes.
pub open spec fn decode_spec(w: u16) -> Ops {
    let a = nibble0(w);
    let x = nibble1(w);
    let y = nibble2(w);
    let n = nibble3(w);
    let nnn = addr_of(x, y, n);
    let kk = byte_of(y, n);
    if a == 0x0 {
        if x == 0 && y == 0xE && n == 0x0 {
            Ops::CLS
        } else if x == 0 && y == 0xE && n == 0xE {
            Ops::RET
        } else {
            Ops::SYS(nnn)
        }
    } else if a == 0x1 {
        Ops::JP(nnn)
    } else if a == 0x2 {
        Ops::CALL(nnn)
    } else if a == 0x3 {
        Ops::SE(x, kk)
    } else if a == 0x4 {
        Ops::SNE(x, kk)
    } else if a == 0x5 && n == 0x0 {
        Ops::SEV(x, y)
    } else if a == 0x6 {
        Ops::LD(x, kk)
    } else if a == 0x7 {
        Ops::ADD(x, kk)
    } else if a == 0x8 && n == 0x0 {
        Ops::LDV(x, y)
    } else if a == 0x8 && n == 0x1 {
        Ops::OR(x, y)
    } else if a == 0x8 && n == 0x2 {
        Ops::AND(x, y)
    } else if a == 0x8 && n == 0x3 {
        Ops::XOR(x, y)
    } else if a == 0x8 && n == 0x4 {
        Ops::ADDV(x, y)
    } else if a == 0x8 && n == 0x5 {
        Ops::SUB(x, y)
    } else if a == 0x8 && n == 0x6 {
        Ops::SHR(x)
    } else if a == 0x8 && n == 0x7 {
        Ops::SUBN(x, y)
    } else if a == 0x8 && n == 0xE {
        Ops::SHL(x)
    } else if a == 0x9 && n == 0x0 {
        Ops::SNEV(x, y)
    } else if a == 0xA {
        Ops::LDI(nnn)
    } else if a == 0xB {
        Ops::JPV0(nnn)
    } else if a == 0xC {
        Ops::RND(x, kk)
    } else if a == 0xD {
        Ops::DRW(x, y, n)
    } else if a == 0xE && y == 0x9 && n == 0xE {
        Ops::SKP(x)
    } else if a == 0xE && y == 0xA && n == 0x1 {
        Ops::SKNP(x)
    } else if a == 0xF && y == 0x0 && n == 0x7 {
        Ops::LDVDT(x)
    } else if a == 0xF && y == 0x0 && n == 0xA {
        Ops::LDK(x)
    } else if a == 0xF && y == 0x1 && n == 0x5 {
        Ops::LDDT(x)
    } else if a == 0xF && y == 0x1 && n == 0x8 {
        Ops::LDST(x)
    } else if a == 0xF && y == 0x1 && n == 0xE {
        Ops::ADDI(x)
    } else if a == 0xF && y == 0x2 && n == 0x9 {
        Ops::LDF(x)
    } else if a == 0xF && y == 0x3 && n == 0x3 {
        Ops::LDB(x)
    } else if a == 0xF && y == 0x5 && n == 0x5 {
        Ops::LDIV(x)
    } else if a == 0xF && y == 0x6 && n == 0x5 {
        Ops::LDVI(x)
    } else {
        Ops::UNKNOWN(w)
    }
}

/// Decodes an instruction word. Every word decodes to exactly one operation; words that
/// encode no instruction decode to `UNKNOWN` carrying the word.
pub fn decode(instruction: u16) -> (r: Ops)
    ensures
        r == decode_spec(instruction),
{
    match to_nibbles(instruction) {
        (0x0, 0x0, 0xE, 0x0) => Ops::CLS,
        (0x0, 0x0, 0xE, 0xE) => Ops::RET,
        (0x0, x, y, z) => Ops::SYS(to_addr(x, y, z)),
        (0x1, x, y, z) => Ops::JP(to_addr(x, y, z)),
        (0x2, x, y, z) => Ops::CALL(to_addr(x, y, z)),
        (0x3, vx, hi, lo) => Ops::SE(vx, nibbles_to_byte(hi, lo)),
        (0x4, vx, hi, lo) => Ops::SNE(vx, nibbles_to_byte(hi, lo)),
        (0x5, vx, vy, 0x0) => Ops::SEV(vx, vy),
        (0x6, vx, hi, lo) => Ops::LD(vx, nibbles_to_byte(hi, lo)),
        (0x7, vx, hi, lo) => Ops::ADD(vx, nibbles_to_byte(hi, lo)),
        (0x8, vx, vy, 0x0) => Ops::LDV(vx, vy),
        (0x8, vx, vy, 0x1) => Ops::OR(vx, vy),
        (0x8, vx, vy, 0x2) => Ops::AND(vx, vy),
        (0x8, vx, vy, 0x3) => Ops::XOR(vx, vy),
        (0x8, vx, vy, 0x4) => Ops::ADDV(vx, vy),
        (0x8, vx, vy, 0x5) => Ops::SUB(vx, vy),
        (0x8, vx, _, 0x6) => Ops::SHR(vx),
        (0x8, vx, vy, 0x7) => Ops::SUBN(vx, vy),
        (0x8, vx, _, 0xE) => Ops::SHL(vx),
        (0x9, vx, vy, 0x0) => Ops::SNEV(vx, vy),
        (0xA, x, y, z) => Ops::LDI(to_addr(x, y, z)),
        (0xB, x, y, z) => Ops::JPV0(to_addr(x, y, z)),
        (0xC, vx, hi, lo) => Ops::RND(vx, nibbles_to_byte(hi, lo)),
        (0xD, vx, vy, n) => Ops::DRW(vx, vy, n),
        (0xE, vx, 0x9, 0xE) => Ops::SKP(vx),
        (0xE, vx, 0xA, 0x1) => Ops::SKNP(vx),
        (0xF, vx, 0x0, 0x7) => Ops::LDVDT(vx),
        (0xF, vx, 0x0, 0xA) => Ops::LDK(vx),
        (0xF, vx, 0x1, 0x5) => Ops::LDDT(vx),
        (0xF, vx, 0x1, 0x8) => Ops::LDST(vx),
        (0xF, vx, 0x1, 0xE) => Ops::ADDI(vx),
        (0xF, vx, 0x2, 0x9) => Ops::LDF(vx),
        (0xF, vx, 0x3, 0x3) => Ops::LDB(vx),
        (0xF, vx, 0x5, 0x5) => Ops::LDIV(vx),
        (0xF, vx, 0x6, 0x5) => Ops::LDVI(vx),
        _ => Ops::UNKNOWN(instruction),
    }
}

fn to_nibbles(x: u16) -> (r: (Nibble, Nibble, Nibble, Nibble))
    ensures
        r == (nibble0(x), nibble1(x), nibble2(x), nibble3(x)),
        r.0 < 16 && r.1 < 16 && r.2 < 16 && r.3 < 16,
{
    (
        (x / 0x1000) as u8,
        ((x / 0x100) % 0x10) as u8,
        ((x / 0x10) % 0x10) as u8,
        (x % 0x10) as u8,
    )
}

fn nibbles_to_byte(hi: Nibble, lo: Nibble) -> (r: Byte)
    requires
        hi < 16,
        lo < 16,
    ensures
        r == byte_of(hi, lo),
{
    hi * 0x10 + lo
}

fn to_addr(hi: Nibble, mid: Nibble, lo: Nibble) -> (r: Addr)
    requires
        hi < 16,
        mid < 16,
        lo < 16,
    ensures
        r == addr_of(hi, mid, lo),
{
    (hi as u16) * 0x100 + (mid as u16) * 0x10 + (lo as u16)
}

} // verus!
