//! Sprite drawing: which pixels a sprite covers, and what drawing it does to the display.

use vstd::prelude::*;
use crate::state::{RAM_SIZE, SCREEN_SIZE};

verus! {

/// The `n` bytes of memory from address `start` on, read as the rows of a sprite.
pub open spec fn sprite_rows(ram: Seq<u8>, start: int, n: int) -> Seq<u8> {
    Seq::new(n as nat, |r: int| ram[start + r])
}

/// Whether column `col` of the sprite row `row_bits` is set. Column 0 is the most
/// significant bit, column 7 the least.
pub open spec fn bit_set(row_bits: u8, col: int) -> bool {
    row_bits & (0x80u8 >> (col as u8)) != 0
}

/// The sprite row that would land on pixel `p` when the sprite's top edge is at `vy`.
/// Rows wrap around the bottom edge of the display.
pub open spec fn pixel_row(vy: u8, p: int) -> int {
    (p / 64 - vy) % 32
}

/// The sprite column that would land on pixel `p` when the sprite's left edge is at `vx`.
/// Columns wrap around the right edge of the display.
pub open spec fn pixel_col(vx: u8, p: int) -> int {
    (p % 64 - vx) % 64
}

/// Whether the sprite, placed at `(vx, vy)`, has a set bit on pixel `p`. The sprite is given
/// by its rows, top to bottom, each eight columns wide.
pub open spec fn sprite_pixel(sprite: Seq<u8>, vx: u8, vy: u8, p: int) -> bool {
    let row = pixel_row(vy, p);
    let col = pixel_col(vx, p);
    row < sprite.len() && col < 8 && bit_set(sprite[row], col)
}

/// The display after the sprite has been drawn at `(vx, vy)`: every pixel under a set bit
/// of the sprite is toggled, every other pixel is left as it was.
pub open spec fn drawn(screen: Seq<bool>, sprite: Seq<u8>, vx: u8, vy: u8) -> Seq<bool> {
    Seq::new(screen.len(), |p: int| screen[p] != sprite_pixel(sprite, vx, vy, p))
}

/// Whether drawing the sprite at `(vx, vy)` turns off a pixel that was on.
pub open spec fn collides(screen: Seq<bool>, sprite: Seq<u8>, vx: u8, vy: u8) -> bool {
    exists|p: int| 0 <= p < screen.len() && screen[p] && #[trigger] sprite_pixel(sprite, vx, vy, p)
}

/// `sprite_pixel`, restricted to the bits that come before column `c` of row `r` in drawing
/// order (rows top to bottom, columns left to right).
spec fn pixel_done(sprite: Seq<u8>, vx: u8, vy: u8, r: int, c: int, p: int) -> bool {
    let row = pixel_row(vy, p);
    sprite_pixel(sprite, vx, vy, p) && (row < r || (row == r && pixel_col(vx, p) < c))
}

/// `collides`, restricted like `pixel_done`.
spec fn collides_done(screen: Seq<bool>, sprite: Seq<u8>, vx: u8, vy: u8, r: int, c: int) -> bool {
    exists|p: int| 0 <= p < screen.len() && screen[p] && #[trigger] pixel_done(sprite, vx, vy, r, c, p)
}

/// Pixel `(vx + c) % 64, (vy + r) % 32` is the one and only pixel on which row `r`,
/// column `c` of a sprite placed at `(vx, vy)` lands.
proof fn lemma_target_pixel(vx: u8, vy: u8, r: int, c: int, p: int)
    requires
        0 <= r < 32,
        0 <= c < 8,
        0 <= p < SCREEN_SIZE,
    ensures
        (pixel_row(vy, p) == r && pixel_col(vx, p) == c) <==> p == (vx + c) % 64 + 64 * ((vy + r) % 32),
        0 <= pixel_row(vy, p) < 32,
        0 <= pixel_col(vx, p) < 64,
{
}

/// Draws the `n`-row sprite stored at `ram[start ..]` onto `screen` at `(vx, vy)` and says
/// whether a pixel that was on has been turned off. With at most 32 rows no two bits of the
/// sprite land on the same pixel.
pub fn draw_sprite(
    screen: &mut [bool; SCREEN_SIZE],
    ram: &[u8; RAM_SIZE],
    start: usize,
    n: usize,
    vx: u8,
    vy: u8,
) -> (collision: bool)
    requires
        n <= 32,
        n > 0 ==> start + n <= RAM_SIZE,
    ensures
        final(screen)@ == drawn(old(screen)@, sprite_rows(ram@, start as int, n as int), vx, vy),
        collision == collides(old(screen)@, sprite_rows(ram@, start as int, n as int), vx, vy),
    no_unwind
{
    let ghost before = screen@;
    let ghost sprite = sprite_rows(ram@, start as int, n as int);
    let mut collision = false;
    let mut r: usize = 0;
    while r < n
        invariant
            r <= n <= 32,
            n > 0 ==> start + n <= RAM_SIZE,
            before.len() == SCREEN_SIZE,
            sprite == sprite_rows(ram@, start as int, n as int),
            forall|p: int|
                0 <= p < SCREEN_SIZE ==> screen@[p] == (before[p] != pixel_done(
                    sprite,
                    vx,
                    vy,
                    r as int,
                    0,
                    p,
                )),
            collision == collides_done(before, sprite, vx, vy, r as int, 0),
        decreases n - r,
    {
        let row_bits = ram[start + r];
        let mut c: u8 = 0;
        while c < 8
            invariant
                r < n <= 32,
                c <= 8,
                before.len() == SCREEN_SIZE,
                sprite.len() == n,
                row_bits == sprite[r as int],
                forall|p: int|
                    0 <= p < SCREEN_SIZE ==> screen@[p] == (before[p] != pixel_done(
                        sprite,
                        vx,
                        vy,
                        r as int,
                        c as int,
                        p,
                    )),
                collision == collides_done(before, sprite, vx, vy, r as int, c as int),
            decreases 8 - c,
        {
            let ghost shown = screen@;
            let ghost hit = collision;
            let x: usize = (vx as usize + c as usize) % 64;
            let y: usize = (vy as usize + r) % 32;
            let idx: usize = x + 64 * y;
            if row_bits & (0x80u8 >> c) != 0 {
                if screen[idx] {
                    collision = true;
                }
                screen[idx] = !screen[idx];
            }
            proof {
                assert forall|p: int| 0 <= p < SCREEN_SIZE implies screen@[p] == (before[p]
                    != pixel_done(sprite, vx, vy, r as int, c + 1, p)) by {
                    lemma_target_pixel(vx, vy, r as int, c as int, p);
                }
                lemma_target_pixel(vx, vy, r as int, c as int, idx as int);
                if collision {
                    if hit {
                        let p = choose|p: int|
                            0 <= p < before.len() && before[p] && #[trigger] pixel_done(
                                sprite,
                                vx,
                                vy,
                                r as int,
                                c as int,
                                p,
                            );
                        assert(pixel_done(sprite, vx, vy, r as int, c + 1, p));
                    } else {
                        assert(pixel_done(sprite, vx, vy, r as int, c + 1, idx as int));
                    }
                }
                if collides_done(before, sprite, vx, vy, r as int, c + 1) {
                    let p = choose|p: int|
                        0 <= p < before.len() && before[p] && #[trigger] pixel_done(
                            sprite,
                            vx,
                            vy,
                            r as int,
                            c + 1,
                            p,
                        );
                    lemma_target_pixel(vx, vy, r as int, c as int, p);
                    if p != idx {
                        assert(pixel_done(sprite, vx, vy, r as int, c as int, p));
                    }
                }
            }
            c += 1;
        }
        proof {
            assert forall|p: int| 0 <= p < SCREEN_SIZE implies pixel_done(
                sprite,
                vx,
                vy,
                r as int,
                8,
                p,
            ) == pixel_done(sprite, vx, vy, r + 1, 0, p) by {}
            assert(collides_done(before, sprite, vx, vy, r as int, 8) == collides_done(
                before,
                sprite,
                vx,
                vy,
                r + 1,
                0,
            ));
        }
        r += 1;
    }
    proof {
        assert forall|p: int| 0 <= p < SCREEN_SIZE implies pixel_done(
            sprite,
            vx,
            vy,
            n as int,
            0,
            p,
        ) == sprite_pixel(sprite, vx, vy, p) by {}
        assert(screen@ =~= drawn(before, sprite, vx, vy));
        assert(collides_done(before, sprite, vx, vy, n as int, 0) == collides(
            before,
            sprite,
            vx,
            vy,
        ));
    }
    collision
}

} // verus!
