//! The sprite model of the display: which pixels a sprite covers, how it is XOR-ed onto
//! the screen, and the verified drawing loop.
use vstd::prelude::*;

use crate::interface::Drawable;
use crate::memory::Memory;
use crate::registers::Registers;
use crate::MEMORY_SIZE;

verus! {

/// Whether bit `col` (0 = most significant) of a sprite row is set.
pub open spec fn sprite_bit(row: u8, col: int) -> bool {
    row & (0x80u8 >> (col as u8)) != 0
}

/// The screen position of column `col` of row `row` of a sprite drawn at `(x, y)`,
/// wrapping around the 64x32 screen.
pub open spec fn sprite_position(x: u8, y: u8, row: int, col: int) -> (u8, u8) {
    (((x + col) % 64) as u8, ((y + row) % 32) as u8)
}

/// The positions of the set bits among the first `rows` full rows, then the first
/// `cols` columns of the next row, of the sprite at `mem[i..]` drawn at `(x, y)`.
pub open spec fn sprite_cells(mem: Seq<u8>, i: int, x: u8, y: u8, rows: int, cols: int) -> Set<
    (u8, u8),
> {
    Set::new(
        |p: (u8, u8)|
            exists|row: int, col: int|
                0 <= row <= rows && 0 <= col < 8 && (row < rows || col < cols) && sprite_bit(
                    mem[i + row],
                    col,
                ) && p == #[trigger] sprite_position(x, y, row, col),
    )
}

/// The pixels of the `n`-row sprite at `mem[i..]` drawn at `(x, y)`.
pub open spec fn sprite_pixels(mem: Seq<u8>, i: int, n: int, x: u8, y: u8) -> Set<(u8, u8)> {
    sprite_cells(mem, i, x, y, n, 0)
}

/// The pixels lit after XOR-ing `sprite` onto `screen`.
pub open spec fn xor_pixels(screen: Set<(u8, u8)>, sprite: Set<(u8, u8)>) -> Set<(u8, u8)> {
    screen.difference(sprite).union(sprite.difference(screen))
}

/// Whether XOR-ing `sprite` onto `screen` turns off a lit pixel.
pub open spec fn collides(screen: Set<(u8, u8)>, sprite: Set<(u8, u8)>) -> bool {
    exists|p: (u8, u8)| screen.contains(p) && sprite.contains(p)
}

/// Two positions of a sprite of at most 32 rows and 64 columns coincide on screen only
/// when they are the same cell.
proof fn lemma_position_injective(x: u8, y: u8, r1: int, c1: int, r2: int, c2: int)
    requires
        0 <= r1 < 32,
        0 <= r2 < 32,
        0 <= c1 < 64,
        0 <= c2 < 64,
        sprite_position(x, y, r1, c1) == sprite_position(x, y, r2, c2),
    ensures
        r1 == r2,
        c1 == c2,
{
    assert((x + c1) % 64 == (x + c2) % 64);
    assert((y + r1) % 32 == (y + r2) % 32);
}

/// Drawing one more column adds its position when its bit is set, and that position was
/// not drawn before.
proof fn lemma_cells_step(mem: Seq<u8>, i: int, x: u8, y: u8, r: int, c: int)
    requires
        0 <= r < 16,
        0 <= c < 8,
    ensures
        !sprite_cells(mem, i, x, y, r, c).contains(sprite_position(x, y, r, c)),
        sprite_cells(mem, i, x, y, r, c + 1) == if sprite_bit(mem[i + r], c) {
            sprite_cells(mem, i, x, y, r, c).insert(sprite_position(x, y, r, c))
        } else {
            sprite_cells(mem, i, x, y, r, c)
        },
{
    let before = sprite_cells(mem, i, x, y, r, c);
    let after = sprite_cells(mem, i, x, y, r, c + 1);
    let p = sprite_position(x, y, r, c);
    if before.contains(p) {
        let (row, col) = choose|row: int, col: int|
            0 <= row <= r && 0 <= col < 8 && (row < r || col < c) && sprite_bit(mem[i + row], col)
                && p == #[trigger] sprite_position(x, y, row, col);
        lemma_position_injective(x, y, row, col, r, c);
    }
    assert forall|q: (u8, u8)|
        after.contains(q) <==> (before.contains(q) || (sprite_bit(mem[i + r], c) && q == p)) by {
        if after.contains(q) {
            let (row, col) = choose|row: int, col: int|
                0 <= row <= r && 0 <= col < 8 && (row < r || col < c + 1) && sprite_bit(
                    mem[i + row],
                    col,
                ) && q == #[trigger] sprite_position(x, y, row, col);
            if row < r || col < c {
                assert(before.contains(q));
            }
        }
        if before.contains(q) {
            let (row, col) = choose|row: int, col: int|
                0 <= row <= r && 0 <= col < 8 && (row < r || col < c) && sprite_bit(
                    mem[i + row],
                    col,
                ) && q == #[trigger] sprite_position(x, y, row, col);
            assert(after.contains(q));
        }
        if sprite_bit(mem[i + r], c) && q == p {
            assert(after.contains(q));
        }
    }
    if sprite_bit(mem[i + r], c) {
        assert(after =~= before.insert(p));
    } else {
        assert(after =~= before);
    }
}

/// A full row drawn is the same as the next row not yet started.
proof fn lemma_cells_next_row(mem: Seq<u8>, i: int, x: u8, y: u8, r: int)
    requires
        0 <= r,
    ensures
        sprite_cells(mem, i, x, y, r, 8) == sprite_cells(mem, i, x, y, r + 1, 0),
{
    let a = sprite_cells(mem, i, x, y, r, 8);
    let b = sprite_cells(mem, i, x, y, r + 1, 0);
    assert forall|q: (u8, u8)| a.contains(q) <==> b.contains(q) by {
        if a.contains(q) {
            let (row, col) = choose|row: int, col: int|
                0 <= row <= r && 0 <= col < 8 && (row < r || col < 8) && sprite_bit(
                    mem[i + row],
                    col,
                ) && q == #[trigger] sprite_position(x, y, row, col);
            assert(b.contains(q));
        }
        if b.contains(q) {
            let (row, col) = choose|row: int, col: int|
                0 <= row <= r + 1 && 0 <= col < 8 && (row < r + 1 || col < 0) && sprite_bit(
                    mem[i + row],
                    col,
                ) && q == #[trigger] sprite_position(x, y, row, col);
            assert(a.contains(q));
        }
    }
    assert(a =~= b);
}

/// XOR-ing a sprite with one more pixel `p` toggles `p`, and collides when `p` was lit.
proof fn lemma_xor_insert(screen: Set<(u8, u8)>, drawn: Set<(u8, u8)>, p: (u8, u8))
    requires
        !drawn.contains(p),
    ensures
        xor_pixels(screen, drawn).contains(p) == screen.contains(p),
        xor_pixels(screen, drawn.insert(p)) == if screen.contains(p) {
            xor_pixels(screen, drawn).remove(p)
        } else {
            xor_pixels(screen, drawn).insert(p)
        },
        collides(screen, drawn.insert(p)) == (collides(screen, drawn) || screen.contains(p)),
{
    if screen.contains(p) {
        assert(xor_pixels(screen, drawn.insert(p)) =~= xor_pixels(screen, drawn).remove(p));
    } else {
        assert(xor_pixels(screen, drawn.insert(p)) =~= xor_pixels(screen, drawn).insert(p));
    }
    if collides(screen, drawn.insert(p)) {
        let q = choose|q: (u8, u8)| screen.contains(q) && drawn.insert(p).contains(q);
        if q != p {
            assert(screen.contains(q) && drawn.contains(q));
        }
    }
    if collides(screen, drawn) {
        let q = choose|q: (u8, u8)| screen.contains(q) && drawn.contains(q);
        assert(screen.contains(q) && drawn.insert(p).contains(q));
    }
    if screen.contains(p) {
        assert(screen.contains(p) && drawn.insert(p).contains(p));
    }
}

/// XORs the `n`-row sprite at the index register onto the screen at `(Vx, Vy)`, sets
/// `VF` to whether a lit pixel went dark, then renders.
pub(crate) fn draw_sprite<D: Drawable>(
    registers: &mut Registers,
    memory: &Memory,
    screen: &mut D,
    vx: u8,
    vy: u8,
    n: u8,
)
    requires
        vx < 16,
        vy < 16,
        n <= 15,
        old(registers).i + n <= MEMORY_SIZE,
        memory.wf(),
    ensures
        ({
            let sprite = sprite_pixels(
                memory@,
                old(registers).i as int,
                n as int,
                old(registers).v(vx as int),
                old(registers).v(vy as int),
            );
            &&& final(screen).pixels() == xor_pixels(old(screen).pixels(), sprite)
            &&& *final(registers) == old(registers).with_v(
                0xF,
                if collides(old(screen).pixels(), sprite) {
                    1
                } else {
                    0
                },
            )
        }),
{
    let base_x = registers.v_at(vx);
    let base_y = registers.v_at(vy);
    let sprite_addr = registers.i as usize;
    let ghost lit = screen.pixels();
    let ghost mem = memory@;
    let mut has_removed_pixel = false;
    let mut row: u8 = 0;
    proof {
        assert(sprite_cells(mem, sprite_addr as int, base_x, base_y, 0, 0) =~= Set::empty());
        assert(xor_pixels(lit, Set::empty()) =~= lit);
    }
    while row < n
        invariant
            row <= n,
            n <= 15,
            sprite_addr + n <= MEMORY_SIZE,
            memory.wf(),
            mem == memory@,
            screen.pixels() == xor_pixels(
                lit,
                sprite_cells(mem, sprite_addr as int, base_x, base_y, row as int, 0),
            ),
            has_removed_pixel == collides(
                lit,
                sprite_cells(mem, sprite_addr as int, base_x, base_y, row as int, 0),
            ),
        decreases n - row,
    {
        let byte = memory.get(sprite_addr + row as usize);
        let mut col: u8 = 0;
        while col < 8
            invariant
                row < n,
                n <= 15,
                col <= 8,
                byte == mem[sprite_addr + row],
                screen.pixels() == xor_pixels(
                    lit,
                    sprite_cells(mem, sprite_addr as int, base_x, base_y, row as int, col as int),
                ),
                has_removed_pixel == collides(
                    lit,
                    sprite_cells(mem, sprite_addr as int, base_x, base_y, row as int, col as int),
                ),
            decreases 8 - col,
        {
            let ghost drawn = sprite_cells(
                mem,
                sprite_addr as int,
                base_x,
                base_y,
                row as int,
                col as int,
            );
            proof {
                lemma_cells_step(mem, sprite_addr as int, base_x, base_y, row as int, col as int);
            }
            let mask: u8 = 0x80u8 >> col;
            if byte & mask != 0 {
                let x = ((base_x as u16 + col as u16) % 64) as u8;
                let y = ((base_y as u16 + row as u16) % 32) as u8;
                proof {
                    assert((x, y) == sprite_position(base_x, base_y, row as int, col as int));
                    lemma_xor_insert(lit, drawn, (x, y));
                }
                if screen.has_pixel(x, y) {
                    screen.remove_pixel(x, y);
                    has_removed_pixel = true;
                } else {
                    screen.add_pixel(x, y);
                }
            }
            col = col + 1;
        }
        proof {
            lemma_cells_next_row(mem, sprite_addr as int, base_x, base_y, row as int);
        }
        row = row + 1;
    }
    registers.set_v_at(0xF, if has_removed_pixel { 1 } else { 0 });
    screen.render();
}

} // verus!
