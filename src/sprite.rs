//! Sprite drawing on the 64x32 frame buffer: XOR, wraparound, collision.
use vstd::prelude::*;

verus! {

/// Whether bit `col` (most significant first) of sprite row `row` is set;
/// the sprite's rows are read from memory starting at `base`, and addresses
/// wrap within the 4 KB space.
pub open spec fn sprite_bit(memory: Seq<u8>, base: int, row: int, col: int) -> bool {
    (memory[(base + row) % 4096] >> ((7 - col) as u8)) & 1u8 == 1u8
}

/// The sprite row that covers pixel `p` when the sprite's top edge is at
/// `y0`, counted with wraparound (meaningful when below the sprite height).
pub open spec fn row_of(p: int, y0: int) -> int {
    (p / 64 - y0) % 32
}

/// The sprite column that covers pixel `p` when the sprite's left edge is at
/// `x0`, counted with wraparound (meaningful when below 8).
pub open spec fn col_of(p: int, x0: int) -> int {
    (p % 64 - x0) % 64
}

/// The frame-buffer index of sprite cell (`row`, `col`) drawn at (`x0`,
/// `y0`): coordinates are reduced modulo the screen's width and height.
pub open spec fn cell_index(x0: int, y0: int, row: int, col: int) -> int {
    ((y0 + row) % 32) * 64 + (x0 + col) % 64
}

/// Whether drawing an `n`-row sprite at (`x0`, `y0`) toggles pixel `p`.
pub open spec fn sprite_hits(memory: Seq<u8>, base: int, x0: int, y0: int, n: int, p: int) -> bool {
    row_of(p, y0) < n && col_of(p, x0) < 8 && sprite_bit(memory, base, row_of(p, y0), col_of(p, x0))
}

/// The frame buffer after XOR-drawing the sprite.
pub open spec fn drawn_pixels(pixels: Seq<bool>, memory: Seq<u8>, base: int, x0: int, y0: int, n: int) -> Seq<bool> {
    Seq::new(pixels.len(), |p: int| pixels[p] != sprite_hits(memory, base, x0, y0, n, p))
}

/// Whether the draw turns off a pixel that was set.
pub open spec fn draw_collides(pixels: Seq<bool>, memory: Seq<u8>, base: int, x0: int, y0: int, n: int) -> bool {
    exists|p: int| 0 <= p < pixels.len() && #[trigger] pixels[p] && sprite_hits(memory, base, x0, y0, n, p)
}

/// Whether the cell covering pixel `p` comes before cell (`row`, `col`) in
/// drawing order (rows top to bottom, each left to right).
pub open spec fn drawn_before(p: int, x0: int, y0: int, row: int, col: int) -> bool {
    row_of(p, y0) < row || (row_of(p, y0) == row && col_of(p, x0) < col)
}

/// The frame buffer part way through a draw, before cell (`row`, `col`).
pub open spec fn drawn_upto(
    pixels: Seq<bool>,
    memory: Seq<u8>,
    base: int,
    x0: int,
    y0: int,
    n: int,
    row: int,
    col: int,
) -> Seq<bool> {
    Seq::new(
        pixels.len(),
        |p: int| pixels[p] != (sprite_hits(memory, base, x0, y0, n, p) && drawn_before(p, x0, y0, row, col)),
    )
}

/// Whether a draw has turned off a set pixel before cell (`row`, `col`).
pub open spec fn collides_upto(
    pixels: Seq<bool>,
    memory: Seq<u8>,
    base: int,
    x0: int,
    y0: int,
    n: int,
    row: int,
    col: int,
) -> bool {
    exists|p: int|
        0 <= p < pixels.len() && #[trigger] pixels[p] && sprite_hits(memory, base, x0, y0, n, p)
            && drawn_before(p, x0, y0, row, col)
}

/// Sprite cell (`row`, `col`) lands on a pixel of the frame buffer, and that
/// pixel maps back to the same cell.
pub proof fn lemma_cell_index(x0: int, y0: int, row: int, col: int)
    requires
        0 <= x0,
        0 <= y0,
        0 <= row < 32,
        0 <= col < 64,
    ensures
        0 <= cell_index(x0, y0, row, col) < 2048,
        row_of(cell_index(x0, y0, row, col), y0) == row,
        col_of(cell_index(x0, y0, row, col), x0) == col,
{
    let a = (y0 + row) % 32;
    let b = (x0 + col) % 64;
    let q = a * 64 + b;
    assert(0 <= a < 32 && 0 <= b < 64);
    assert(q / 64 == a && q % 64 == b) by (nonlinear_arith)
        requires
            q == a * 64 + b,
            0 <= b < 64,
    ;
    assert((a - y0) % 32 == row) by (nonlinear_arith)
        requires
            a == (y0 + row) % 32,
            0 <= row < 32,
            0 <= y0,
    ;
    assert((b - x0) % 64 == col) by (nonlinear_arith)
        requires
            b == (x0 + col) % 64,
            0 <= col < 64,
            0 <= x0,
    ;
}

/// A pixel is determined by the sprite cell that covers it.
pub proof fn lemma_cell_unique(x0: int, y0: int, p: int)
    requires
        0 <= x0,
        0 <= y0,
        0 <= p < 2048,
    ensures
        p == cell_index(x0, y0, row_of(p, y0), col_of(p, x0)),
{
    let a = p / 64;
    let b = p % 64;
    let r = row_of(p, y0);
    let c = col_of(p, x0);
    assert(p == a * 64 + b && 0 <= a < 32 && 0 <= b < 64) by (nonlinear_arith)
        requires
            a == p / 64,
            b == p % 64,
            0 <= p < 2048,
    ;
    assert((y0 + r) % 32 == a) by (nonlinear_arith)
        requires
            r == (a - y0) % 32,
            0 <= a < 32,
    ;
    assert((x0 + c) % 64 == b) by (nonlinear_arith)
        requires
            c == (b - x0) % 64,
            0 <= b < 64,
    ;
}

/// Drawing the same sprite twice at the same place leaves every pixel as it
/// was before the first draw.
pub proof fn draw_twice_restores(pixels: Seq<bool>, memory: Seq<u8>, base: int, x0: int, y0: int, n: int)
    ensures
        drawn_pixels(drawn_pixels(pixels, memory, base, x0, y0, n), memory, base, x0, y0, n) == pixels,
{
    let once = drawn_pixels(pixels, memory, base, x0, y0, n);
    let twice = drawn_pixels(once, memory, base, x0, y0, n);
    assert(twice =~= pixels);
}

/// The second of two identical draws reports a collision whenever the sprite
/// has a set bit over a pixel that was off before the first draw; so always
/// for a sprite with a set bit drawn onto a clear screen.
pub proof fn second_draw_collides(
    pixels: Seq<bool>,
    memory: Seq<u8>,
    base: int,
    x0: int,
    y0: int,
    n: int,
    row: int,
    col: int,
)
    requires
        pixels.len() == 2048,
        0 <= x0,
        0 <= y0,
        n <= 32,
        0 <= row < n,
        0 <= col < 8,
        sprite_bit(memory, base, row, col),
        !pixels[cell_index(x0, y0, row, col)],
    ensures
        draw_collides(drawn_pixels(pixels, memory, base, x0, y0, n), memory, base, x0, y0, n),
{
    let q = cell_index(x0, y0, row, col);
    lemma_cell_index(x0, y0, row, col);
    let once = drawn_pixels(pixels, memory, base, x0, y0, n);
    assert(sprite_hits(memory, base, x0, y0, n, q));
    assert(once[q]);
}

/// Sprite cells wrap around the screen's edges: cell (`row`, `col`) of a
/// sprite drawn at (`x0`, `y0`) toggles the pixel at column
/// `(x0 + col) % 64` and row `(y0 + row) % 32`, which is always within the
/// frame buffer.
pub proof fn draw_wraps_around(
    pixels: Seq<bool>,
    memory: Seq<u8>,
    base: int,
    x0: int,
    y0: int,
    n: int,
    row: int,
    col: int,
)
    requires
        pixels.len() == 2048,
        0 <= x0,
        0 <= y0,
        n <= 32,
        0 <= row < n,
        0 <= col < 8,
    ensures
        0 <= cell_index(x0, y0, row, col) < 2048,
        cell_index(x0, y0, row, col) % 64 == (x0 + col) % 64,
        cell_index(x0, y0, row, col) / 64 == (y0 + row) % 32,
        drawn_pixels(pixels, memory, base, x0, y0, n)[cell_index(x0, y0, row, col)]
            == (pixels[cell_index(x0, y0, row, col)] != sprite_bit(memory, base, row, col)),
{
    lemma_cell_index(x0, y0, row, col);
    let a = (y0 + row) % 32;
    let b = (x0 + col) % 64;
    assert((a * 64 + b) / 64 == a && (a * 64 + b) % 64 == b) by (nonlinear_arith)
        requires
            0 <= b < 64,
    ;
}

} // verus!
