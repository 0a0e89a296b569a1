//! The monochrome frame buffer.

use vstd::prelude::*;

verus! {

/// Pixels per row.
pub const DISPLAY_WIDTH: usize = 64;

/// Rows.
pub const DISPLAY_HEIGHT: usize = 32;

/// Pixels in the whole frame.
pub const DISPLAY_PIXELS: usize = 2048;

/// Pixels in one sprite row.
pub const SPRITE_WIDTH: usize = 8;

/// Whether pixel `col` (0 is leftmost) of the sprite row `row` is set.
pub open spec fn sprite_bit(row: u8, col: int) -> bool {
    (row >> ((7 - col) as u8)) & 1u8 == 1u8
}

/// Whether a sprite drawn with its top left corner at `(x0, y0)` covers the
/// pixel with index `p`, with a set bit. The sprite is clipped at the right
/// and bottom edges.
pub open spec fn sprite_covers(sprite: Seq<u8>, x0: int, y0: int, p: int) -> bool {
    let x = p % 64;
    let y = p / 64;
    &&& 0 <= p < 2048
    &&& x0 <= x < x0 + 8
    &&& y0 <= y < y0 + sprite.len()
    &&& sprite_bit(sprite[y - y0], x - x0)
}

/// The frame after a sprite was drawn onto `pixels`: each covered pixel is
/// flipped. The corner wraps into the frame.
pub open spec fn draw_spec(pixels: Seq<bool>, x: u8, y: u8, sprite: Seq<u8>) -> Seq<bool> {
    Seq::new(
        2048,
        |p: int| pixels[p] != sprite_covers(sprite, (x % 64) as int, (y % 32) as int, p),
    )
}

/// Whether drawing the sprite turns a lit pixel off.
pub open spec fn collides(pixels: Seq<bool>, x: u8, y: u8, sprite: Seq<u8>) -> bool {
    exists|p: int|
        0 <= p < 2048 && #[trigger] pixels[p] && sprite_covers(
            sprite,
            (x % 64) as int,
            (y % 32) as int,
            p,
        )
}

/// The frame with every pixel off.
pub open spec fn blank() -> Seq<bool> {
    Seq::new(2048, |p: int| false)
}

/// A frame of 64 by 32 pixels, row by row.
#[derive(Clone, Copy, Debug)]
pub struct Display {
    pixels: [bool; 2048],
}

impl View for Display {
    type V = Seq<bool>;

    closed spec fn view(&self) -> Seq<bool> {
        self.pixels@
    }
}

impl Display {
    /// A blank frame.
    pub fn new() -> (display: Display)
        ensures
            display@ == blank(),
    {
        let display = Display { pixels: [false; 2048] };
        display
    }

    /// A frame always has 2048 pixels.
    pub proof fn lemma_shape(&self)
        ensures
            self@.len() == 2048,
    {
    }

    /// Turns every pixel off.
    pub fn clear(&mut self)
        ensures
            final(self)@ == blank(),
    {
        self.pixels = [false; 2048];
    }

    /// Draws `sprite`, one byte per row, with its top left corner at column
    /// `x % 64` of row `y % 32`: each pixel under a set bit is flipped, and
    /// what would fall beyond the right or the bottom edge is dropped. Says
    /// whether a lit pixel was turned off.
    pub fn draw(&mut self, x: u8, y: u8, sprite: &Vec<u8>) -> (collision: bool)
        ensures
            final(self)@ == draw_spec(old(self)@, x, y, sprite@),
            collision == collides(old(self)@, x, y, sprite@),
    {
        let x0: usize = (x % 64) as usize;
        let y0: usize = (y % 32) as usize;
        let rows: usize = if sprite.len() < 32 - y0 { sprite.len() } else { 32 - y0 };
        let cols: usize = if 8 < 64 - x0 { 8 } else { 64 - x0 };
        let mut collision = false;
        let mut r: usize = 0;
        while r < rows
            invariant
                r <= rows,
                x0 == x % 64,
                y0 == y % 32,
                rows <= sprite.len(),
                rows <= 32 - y0,
                rows == sprite.len() || rows == 32 - y0,
                cols <= 8,
                cols <= 64 - x0,
                cols == 8 || cols == 64 - x0,
                drawn_upto(self@, old(self)@, sprite@, x0 as int, y0 as int, r as int, 0),
                collision == hit_upto(old(self)@, sprite@, x0 as int, y0 as int, r as int, 0),
            decreases rows - r,
        {
            let bits: u8 = sprite[r];
            let mut c: usize = 0;
            while c < cols
                invariant
                    c <= cols,
                    r < rows,
                    x0 == x % 64,
                    y0 == y % 32,
                    rows <= sprite.len(),
                    rows <= 32 - y0,
                    cols <= 8,
                    cols <= 64 - x0,
                    bits == sprite@[r as int],
                    drawn_upto(self@, old(self)@, sprite@, x0 as int, y0 as int, r as int, c as int),
                    collision == hit_upto(
                        old(self)@,
                        sprite@,
                        x0 as int,
                        y0 as int,
                        r as int,
                        c as int,
                    ),
                decreases cols - c,
            {
                let p: usize = (y0 + r) * 64 + x0 + c;
                let shift: u8 = (7 - c) as u8;
                let set: bool = (bits >> shift) & 1u8 == 1u8;
                let ghost before = self@;
                if set {
                    let lit: bool = self.pixels[p];
                    if lit {
                        collision = true;
                    }
                    self.pixels[p] = !lit;
                }
                proof {
                    assert(self@ =~= before.update(p as int, before[p as int] != set));
                    lemma_draw_pixel(
                        before,
                        self@,
                        old(self)@,
                        sprite@,
                        x0 as int,
                        y0 as int,
                        r as int,
                        c as int,
                    );
                    lemma_hit_pixel(old(self)@, sprite@, x0 as int, y0 as int, r as int, c as int);
                }
                c = c + 1;
            }
            proof {
                lemma_row_done(
                    self@,
                    old(self)@,
                    sprite@,
                    x0 as int,
                    y0 as int,
                    r as int,
                    c as int,
                );
            }
            r = r + 1;
        }
        proof {
            lemma_sprite_done(self@, old(self)@, sprite@, x, y, r as int);
        }
        collision
    }

    /// Whether the pixel in column `x` of row `y` is lit.
    pub fn pixel(&self, x: usize, y: usize) -> (lit: bool)
        requires
            x < DISPLAY_WIDTH,
            y < DISPLAY_HEIGHT,
        ensures
            self@.len() == 2048,
            lit == self@[y * 64 + x],
    {
        self.pixels[y * 64 + x]
    }
}

/// Whether pixel `p` lies in a sprite row above row `r` of the sprite, or in
/// row `r` left of column `c`: the part a row-by-row drawing has passed when it
/// stands at `(r, c)`.
spec fn passed(x0: int, y0: int, p: int, r: int, c: int) -> bool {
    p / 64 - y0 < r || (p / 64 - y0 == r && p % 64 - x0 < c)
}

/// Whether `cur` is `old` with the sprite drawn as far as `(r, c)`.
spec fn drawn_upto(
    cur: Seq<bool>,
    old: Seq<bool>,
    sprite: Seq<u8>,
    x0: int,
    y0: int,
    r: int,
    c: int,
) -> bool {
    &&& cur.len() == 2048
    &&& old.len() == 2048
    &&& forall|q: int|
        0 <= q < 2048 ==> cur[q] == (#[trigger] old[q] != (sprite_covers(sprite, x0, y0, q)
            && passed(x0, y0, q, r, c)))
}

/// Whether drawing the sprite as far as `(r, c)` turns a lit pixel off.
spec fn hit_upto(old: Seq<bool>, sprite: Seq<u8>, x0: int, y0: int, r: int, c: int) -> bool {
    exists|q: int|
        0 <= q < 2048 && #[trigger] old[q] && sprite_covers(sprite, x0, y0, q) && passed(
            x0,
            y0,
            q,
            r,
            c,
        )
}

/// Flipping the pixel at `(r, c)` under a set bit takes the drawing one
/// column on; that pixel was untouched until then.
proof fn lemma_draw_pixel(
    before: Seq<bool>,
    after: Seq<bool>,
    old: Seq<bool>,
    sprite: Seq<u8>,
    x0: int,
    y0: int,
    r: int,
    c: int,
)
    requires
        0 <= x0,
        0 <= y0,
        0 <= r,
        0 <= c,
        x0 + c < 64,
        y0 + r < 32,
        drawn_upto(before, old, sprite, x0, y0, r, c),
        after == before.update(
            (y0 + r) * 64 + x0 + c,
            before[(y0 + r) * 64 + x0 + c] != sprite_covers(
                sprite,
                x0,
                y0,
                (y0 + r) * 64 + x0 + c,
            ),
        ),
    ensures
        drawn_upto(after, old, sprite, x0, y0, r, c + 1),
        before[(y0 + r) * 64 + x0 + c] == old[(y0 + r) * 64 + x0 + c],
{
}

/// The drawing has hit a lit pixel after column `c` if it had before, or
/// if the pixel at `(r, c)` was lit and is covered.
proof fn lemma_hit_pixel(old: Seq<bool>, sprite: Seq<u8>, x0: int, y0: int, r: int, c: int)
    requires
        0 <= x0,
        0 <= y0,
        0 <= r,
        0 <= c,
        x0 + c < 64,
        y0 + r < 32,
    ensures
        hit_upto(old, sprite, x0, y0, r, c + 1) == (hit_upto(old, sprite, x0, y0, r, c) || (old[(y0
            + r) * 64 + x0 + c] && sprite_covers(sprite, x0, y0, (y0 + r) * 64 + x0 + c))),
{
}

/// A row is done at its eighth column or at the right edge; the drawing
/// then stands at the start of the next row.
proof fn lemma_row_done(
    cur: Seq<bool>,
    old: Seq<bool>,
    sprite: Seq<u8>,
    x0: int,
    y0: int,
    r: int,
    c: int,
)
    requires
        0 <= x0 < 64,
        c == 8 || c == 64 - x0,
        drawn_upto(cur, old, sprite, x0, y0, r, c),
    ensures
        drawn_upto(cur, old, sprite, x0, y0, r + 1, 0),
        hit_upto(old, sprite, x0, y0, r, c) == hit_upto(old, sprite, x0, y0, r + 1, 0),
{
}

/// The sprite is done at its last row or at the bottom edge; the frame is
/// then the one that `draw_spec` gives.
proof fn lemma_sprite_done(cur: Seq<bool>, old: Seq<bool>, sprite: Seq<u8>, x: u8, y: u8, r: int)
    requires
        r == sprite.len() || r == 32 - y % 32,
        drawn_upto(cur, old, sprite, (x % 64) as int, (y % 32) as int, r, 0),
    ensures
        cur == draw_spec(old, x, y, sprite),
        hit_upto(old, sprite, (x % 64) as int, (y % 32) as int, r, 0) == collides(
            old,
            x,
            y,
            sprite,
        ),
{
}

} // verus!
