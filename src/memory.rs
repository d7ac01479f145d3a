use vstd::prelude::*;

use crate::errors::ChipeyteError;
use crate::MEMORY_SIZE;

verus! {

/// Address of the glyph of hex digit `0`; digit `d` starts `0x10 * d` bytes later.
pub const FONT_START: u16 = 0x0100;

/// The five rows of the glyph of hex digit `d`, most significant bit leftmost.
pub open spec fn font_glyph(d: int) -> Seq<u8> {
    if d == 0x0 { seq![0xF0u8, 0x90, 0x90, 0x90, 0xF0] }
    else if d == 0x1 { seq![0x20u8, 0x60, 0x20, 0x20, 0x70] }
    else if d == 0x2 { seq![0xF0u8, 0x10, 0xF0, 0x80, 0xF0] }
    else if d == 0x3 { seq![0xF0u8, 0x10, 0xF0, 0x10, 0xF0] }
    else if d == 0x4 { seq![0x90u8, 0x90, 0xF0, 0x10, 0x10] }
    else if d == 0x5 { seq![0xF0u8, 0x80, 0xF0, 0x10, 0xF0] }
    else if d == 0x6 { seq![0xF0u8, 0x80, 0xF0, 0x90, 0xF0] }
    else if d == 0x7 { seq![0xF0u8, 0x10, 0x20, 0x40, 0x40] }
    else if d == 0x8 { seq![0xF0u8, 0x90, 0xF0, 0x90, 0xF0] }
    else if d == 0x9 { seq![0xF0u8, 0x90, 0xF0, 0x10, 0xF0] }
    else if d == 0xA { seq![0xF0u8, 0x90, 0xF0, 0x90, 0x90] }
    else if d == 0xB { seq![0xE0u8, 0x90, 0xE0, 0x90, 0xE0] }
    else if d == 0xC { seq![0xF0u8, 0x80, 0x80, 0x80, 0xF0] }
    else if d == 0xD { seq![0xE0u8, 0x90, 0x90, 0x90, 0xE0] }
    else if d == 0xE { seq![0xF0u8, 0x80, 0xF0, 0x80, 0xF0] }
    else { seq![0xF0u8, 0x80, 0xF0, 0x80, 0x80] }
}

/// The address of the glyph of hex digit `d`.
pub open spec fn glyph_address(d: int) -> int {
    FONT_START + 0x10 * d
}

/// The byte at address `a` of freshly created memory: glyph rows in the font area,
/// zero everywhere else.
pub open spec fn initial_byte(a: int) -> u8 {
    if FONT_START <= a < FONT_START + 0x100 && (a - FONT_START) % 0x10 < 5 {
        font_glyph((a - FONT_START) / 0x10)[(a - FONT_START) % 0x10]
    } else {
        0
    }
}

/// The contents of freshly created memory.
pub open spec fn initial_memory() -> Seq<u8> {
    Seq::new(MEMORY_SIZE as nat, |a: int| initial_byte(a))
}

/// The big-endian 16-bit value of the bytes `hi`, `lo`.
pub open spec fn be_u16(hi: u8, lo: u8) -> u16 {
    (hi as int * 0x100 + lo as int) as u16
}

/// The flat, byte-addressable memory of the machine: 4096 bytes holding the call
/// stack, the font table and the program.
#[derive(Debug, PartialEq)]
pub struct Memory {
    memory: Vec<u8>,
}

impl View for Memory {
    type V = Seq<u8>;

    closed spec fn view(&self) -> Seq<u8> {
        self.memory@
    }
}

fn glyph_row(d: u8, row: u8) -> (r: u8)
    requires
        d < 16,
        row < 5,
    ensures
        r == font_glyph(d as int)[row as int],
{
    let g: [u8; 5] = match d {
        0x0 => [0xF0, 0x90, 0x90, 0x90, 0xF0],
        0x1 => [0x20, 0x60, 0x20, 0x20, 0x70],
        0x2 => [0xF0, 0x10, 0xF0, 0x80, 0xF0],
        0x3 => [0xF0, 0x10, 0xF0, 0x10, 0xF0],
        0x4 => [0x90, 0x90, 0xF0, 0x10, 0x10],
        0x5 => [0xF0, 0x80, 0xF0, 0x10, 0xF0],
        0x6 => [0xF0, 0x80, 0xF0, 0x90, 0xF0],
        0x7 => [0xF0, 0x10, 0x20, 0x40, 0x40],
        0x8 => [0xF0, 0x90, 0xF0, 0x90, 0xF0],
        0x9 => [0xF0, 0x90, 0xF0, 0x10, 0xF0],
        0xA => [0xF0, 0x90, 0xF0, 0x90, 0x90],
        0xB => [0xE0, 0x90, 0xE0, 0x90, 0xE0],
        0xC => [0xF0, 0x80, 0x80, 0x80, 0xF0],
        0xD => [0xE0, 0x90, 0x90, 0x90, 0xE0],
        0xE => [0xF0, 0x80, 0xF0, 0x80, 0xF0],
        _ => [0xF0, 0x80, 0xF0, 0x80, 0x80],
    };
    g[row as usize]
}

impl Memory {
    /// Memory holds exactly `MEMORY_SIZE` bytes.
    pub open spec fn wf(&self) -> bool {
        self@.len() == MEMORY_SIZE
    }

    /// Zeroed memory with the hex digit font loaded at `FONT_START`.
    pub fn new() -> (r: Memory)
        ensures
            r.wf(),
            r@ == initial_memory(),
    {
        let mut mem = Memory { memory: vec![0u8; MEMORY_SIZE] };
        assert(mem@ =~= Seq::new(MEMORY_SIZE as nat, |a: int| 0u8));
        mem.initialize_display_memory();
        mem
    }

    /// Writes the glyphs of the hex digits `0`..`F`, five bytes each, into the font area.
    fn initialize_display_memory(&mut self)
        requires
            old(self)@ == Seq::new(MEMORY_SIZE as nat, |a: int| 0u8),
        ensures
            final(self)@ == initial_memory(),
    {
        let mut d: u8 = 0;
        while d < 16
            invariant
                d <= 16,
                self.memory@ == Seq::new(
                    MEMORY_SIZE as nat,
                    |a: int| if a < glyph_address(d as int) { initial_byte(a) } else { 0u8 },
                ),
            decreases 16 - d,
        {
            let mut row: u8 = 0;
            while row < 5
                invariant
                    d < 16,
                    row <= 5,
                    self.memory@ == Seq::new(
                        MEMORY_SIZE as nat,
                        |a: int|
                            if a < glyph_address(d as int) + row as int {
                                initial_byte(a)
                            } else {
                                0u8
                            },
                    ),
                decreases 5 - row,
            {
                let addr: usize = 0x100 + 16 * (d as usize) + row as usize;
                let value = glyph_row(d, row);
                proof {
                    assert((addr - FONT_START) % 0x10 == row as int);
                    assert((addr - FONT_START) / 0x10 == d as int);
                }
                self.memory.set(addr, value);
                row = row + 1;
                assert(self.memory@ =~= Seq::new(
                    MEMORY_SIZE as nat,
                    |a: int|
                        if a < glyph_address(d as int) + row as int {
                            initial_byte(a)
                        } else {
                            0u8
                        },
                ));
            }
            proof {
                assert forall|a: int|
                    glyph_address(d as int) + 5 <= a < glyph_address(d as int + 1) implies
                    initial_byte(a) == 0 by {
                    assert((a - FONT_START) % 0x10 >= 5);
                }
            }
            d = d + 1;
            assert(self.memory@ =~= Seq::new(
                MEMORY_SIZE as nat,
                |a: int| if a < glyph_address(d as int) { initial_byte(a) } else { 0u8 },
            ));
        }
        assert(self.memory@ =~= initial_memory());
    }
    /// Writes `value` at `index`.
    pub fn set(&mut self, index: usize, value: u8)
        requires
            old(self).wf(),
            index < MEMORY_SIZE,
        ensures
            final(self)@ == old(self)@.update(index as int, value),
    {
        self.memory.set(index, value);
    }

    /// The byte at `index`.
    pub fn get(&self, index: usize) -> (r: u8)
        requires
            self.wf(),
            index < MEMORY_SIZE,
        ensures
            r == self@[index as int],
    {
        self.memory[index]
    }

    /// The big-endian 16-bit value of the bytes at `index` and `index + 1`.
    pub fn get_u16(&self, index: usize) -> (r: u16)
        requires
            self.wf(),
            index + 1 < MEMORY_SIZE,
        ensures
            r == be_u16(self@[index as int], self@[index + 1]),
    {
        let x = self.memory[index];
        let y = self.memory[index + 1];
        (x as u16) * 0x100 + (y as u16)
    }

    /// Writes `value` big-endian at `index` and `index + 1`.
    pub fn set_u16(&mut self, index: usize, value: u16)
        requires
            old(self).wf(),
            index + 1 < MEMORY_SIZE,
        ensures
            final(self)@ == old(self)@.update(index as int, (value / 0x100) as u8).update(
                index + 1,
                (value % 0x100) as u8,
            ),
            be_u16(final(self)@[index as int], final(self)@[index + 1]) == value,
    {
        let x = (value / 0x100) as u8;
        let y = (value % 0x100) as u8;
        self.memory.set(index, x);
        self.memory.set(index + 1, y);
    }

    /// Copies `program` into memory starting at `start`.
    pub fn load_program(&mut self, start: usize, program: &Vec<u8>)
        requires
            old(self).wf(),
            start + program@.len() <= MEMORY_SIZE,
        ensures
            final(self)@ == old(self)@.subrange(0, start as int) + program@ + old(self)@.subrange(
                start + program@.len(),
                old(self)@.len() as int,
            ),
    {
        let mut k: usize = 0;
        while k < program.len()
            invariant
                old(self).wf(),
                start + program@.len() <= MEMORY_SIZE,
                k <= program@.len(),
                self@ == old(self)@.subrange(0, start as int) + program@.subrange(0, k as int)
                    + old(self)@.subrange(start + k, old(self)@.len() as int),
            decreases program@.len() - k,
        {
            self.memory.set(start + k, program[k]);
            k = k + 1;
            assert(self@ =~= old(self)@.subrange(0, start as int) + program@.subrange(0, k as int)
                + old(self)@.subrange(start + k, old(self)@.len() as int));
        }
        assert(program@.subrange(0, k as int) =~= program@);
    }

    /// The address of the glyph of hex digit `digit`, or `UnsupportedSprite` when the
    /// value is not a hex digit.
    pub fn get_sprite_location_for(digit: u8) -> (r: Result<u16, ChipeyteError>)
        ensures
            digit < 16 ==> r == Ok::<u16, ChipeyteError>(glyph_address(digit as int) as u16),
            digit >= 16 ==> r == Err::<u16, ChipeyteError>(ChipeyteError::UnsupportedSprite(digit)),
    {
        if digit < 16 {
            Ok(FONT_START + 0x10 * (digit as u16))
        } else {
            Err(ChipeyteError::UnsupportedSprite(digit))
        }
    }
}

} // verus!
