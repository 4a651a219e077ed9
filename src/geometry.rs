//! Mapping pointer positions to squares.
//!
//! The board is drawn as an `H x H` square, horizontally centered in a
//! `W x H` window; window `y` grows downward while rank 0 is the bottom row.
//! Positions are whole pixels.
use vstd::arithmetic::div_mod::{
    lemma_fundamental_div_mod, lemma_fundamental_div_mod_converse, lemma_mod_pos_bound,
};
use vstd::prelude::*;

verus! {

/// A pointer position in window pixels, origin at the top-left corner.
#[derive(Clone, Copy, Debug, PartialEq, Eq, Structural)]
pub struct Point {
    pub x: u32,
    pub y: u32,
}

/// The window size in pixels.
#[derive(Clone, Copy, Debug, PartialEq, Eq, Structural)]
pub struct Viewport {
    pub width: u32,
    pub height: u32,
}

/// Twice the horizontal distance from the board's left edge to `p`
/// (doubled so that an odd margin `W - H` stays an integer).
pub open spec fn board_x2(p: Point, v: Viewport) -> int {
    2 * p.x - (v.width - v.height)
}

/// The pointer lies on the board square, bounds included.
pub open spec fn over_board(p: Point, v: Viewport) -> bool {
    &&& 0 <= board_x2(p, v) <= 2 * v.height
    &&& 0 <= p.y <= v.height
}

/// The pointer lies on the board and not on its right or bottom edge line,
/// so that it names one of the grid's cells.
pub open spec fn on_cell(p: Point, v: Viewport) -> bool {
    &&& over_board(p, v)
    &&& board_x2(p, v) < 2 * v.height
    &&& p.y < v.height
}

/// Column of `p` on an `n x n` grid laid over the board.
pub open spec fn grid_file(p: Point, v: Viewport, n: int) -> int {
    board_x2(p, v) * n / (2 * v.height)
}

/// Row of `p` on an `n x n` grid laid over the board, 0 at the bottom.
pub open spec fn grid_rank(p: Point, v: Viewport, n: int) -> int {
    n - p.y * n / (v.height as int) - 1
}

/// Index of the cell of an `n x n` grid under `p`, row-major from the bottom.
pub open spec fn grid_cell(p: Point, v: Viewport, n: int) -> int {
    grid_file(p, v, n) + n * grid_rank(p, v, n)
}

/// The square (of the 8 x 8 board) under `p`.
pub open spec fn square_at(p: Point, v: Viewport) -> int {
    grid_cell(p, v, 8)
}

/// The cell of the 16 x 16 subdivision of the board under `p`.
pub open spec fn quarter_at(p: Point, v: Viewport) -> int {
    grid_cell(p, v, 16)
}

/// Floor division pinned down by its bounds.
proof fn lemma_div_by_bounds(a: int, d: int, q: int)
    requires
        d > 0,
        q * d <= a < (q + 1) * d,
    ensures
        a / d == q,
{
    assert((q + 1) * d == q * d + d) by (nonlinear_arith);
    lemma_fundamental_div_mod_converse(a, d, q, a - q * d);
}

/// A non-negative value below `k * d` divides by `d` into `[0, k)`.
proof fn lemma_div_in_range(a: int, d: int, k: int)
    requires
        d > 0,
        0 <= a < k * d,
    ensures
        0 <= a / d < k,
{
    let q = a / d;
    let r = a % d;
    lemma_fundamental_div_mod(a, d);
    lemma_mod_pos_bound(a, d);
    assert(0 <= q < k) by (nonlinear_arith)
        requires
            a == d * q + r,
            0 <= r < d,
            0 <= a < k * d,
            d > 0,
    ;
}

/// The cell indices of `p` on an `n x n` grid are in range when `p` is on a
/// cell.
pub proof fn lemma_grid_in_range(p: Point, v: Viewport, n: int)
    requires
        on_cell(p, v),
        n > 0,
    ensures
        0 <= grid_file(p, v, n) < n,
        0 <= grid_rank(p, v, n) < n,
        0 <= grid_cell(p, v, n) < n * n,
{
    let x2 = board_x2(p, v);
    let h = v.height as int;
    assert(0 <= x2 * n < n * (2 * h)) by (nonlinear_arith)
        requires
            0 <= x2 < 2 * h,
            n > 0,
    ;
    lemma_div_in_range(x2 * n, 2 * h, n);
    assert(0 <= p.y * n < n * h) by (nonlinear_arith)
        requires
            0 <= p.y < h,
            n > 0,
    ;
    lemma_div_in_range(p.y * n, h, n);
    let f = grid_file(p, v, n);
    let r = grid_rank(p, v, n);
    assert(0 <= f + n * r < n * n) by (nonlinear_arith)
        requires
            0 <= f < n,
            0 <= r < n,
    ;
}

/// The squares' indices are in range wherever the pointer names a cell:
/// `square_at` lies in `[0, 64)` and `quarter_at` in `[0, 256)`.
pub proof fn lemma_cells_in_range(p: Point, v: Viewport)
    requires
        on_cell(p, v),
    ensures
        0 <= square_at(p, v) < 64,
        0 <= quarter_at(p, v) < 256,
{
    lemma_grid_in_range(p, v, 8);
    lemma_grid_in_range(p, v, 16);
}

/// The pixel nearest to the visual center of square `s`, rounded toward the
/// top-left.
pub open spec fn square_center(s: int, v: Viewport) -> Point {
    let w = v.width as int;
    let h = v.height as int;
    Point {
        x: ((8 * (w - h) + h * (2 * (s % 8) + 1)) / 16) as u32,
        y: ((h * (2 * (7 - s / 8) + 1)) / 16) as u32,
    }
}

/// Round trip: the center of every square maps back to that square, for a
/// board of at least 16 pixels in a window at least as wide as it is high.
pub proof fn lemma_center_round_trip(s: int, v: Viewport)
    requires
        0 <= s < 64,
        v.height >= 16,
        v.width >= v.height,
    ensures
        on_cell(square_center(s, v), v),
        square_at(square_center(s, v), v) == s,
{
    let w = v.width as int;
    let h = v.height as int;
    let d = w - h;
    let f = s % 8;
    let k = 7 - s / 8;
    let nx = 8 * d + h * (2 * f + 1);
    let ny = h * (2 * k + 1);
    let cx = nx / 16;
    let cy = ny / 16;
    lemma_fundamental_div_mod(nx, 16);
    lemma_mod_pos_bound(nx, 16);
    lemma_fundamental_div_mod(ny, 16);
    lemma_mod_pos_bound(ny, 16);
    assert(0 <= f < 8 && 0 <= k < 8);
    assert(0 <= cx < w && 0 <= cy < h && 0 <= 2 * cx - d < 2 * h
        && f * (2 * h) <= (2 * cx - d) * 8 < (f + 1) * (2 * h)
        && k * h <= cy * 8 < (k + 1) * h) by (nonlinear_arith)
        requires
            nx == 16 * cx + nx % 16,
            0 <= nx % 16 < 16,
            ny == 16 * cy + ny % 16,
            0 <= ny % 16 < 16,
            nx == 8 * d + h * (2 * f + 1),
            ny == h * (2 * k + 1),
            0 <= f < 8,
            0 <= k < 8,
            d >= 0,
            h >= 16,
            w == d + h,
    ;
    let c = square_center(s, v);
    assert(c.x == cx && c.y == cy);
    lemma_div_by_bounds((2 * cx - d) * 8, 2 * h, f);
    lemma_div_by_bounds(cy * 8, h, k);
    assert(s == f + 8 * (s / 8));
}

/// Whether the pointer lies over the board, bounds included.
pub fn is_over_board(p: Point, v: Viewport) -> (r: bool)
    ensures
        r == over_board(p, v),
{
    let x2: i64 = 2 * (p.x as i64) - (v.width as i64 - v.height as i64);
    0 <= x2 && x2 <= 2 * (v.height as i64) && p.y <= v.height
}

/// Whether the pointer names a square: over the board and off its right and
/// bottom edge lines.
pub fn is_on_cell(p: Point, v: Viewport) -> (r: bool)
    ensures
        r == on_cell(p, v),
{
    let x2: i64 = 2 * (p.x as i64) - (v.width as i64 - v.height as i64);
    0 <= x2 && x2 < 2 * (v.height as i64) && p.y < v.height
}

/// Cell index under `p` on an `n x n` grid over the board.
fn grid_index(p: Point, v: Viewport, n: u64) -> (r: u32)
    requires
        on_cell(p, v),
        n == 8 || n == 16,
    ensures
        r == grid_cell(p, v, n as int),
        r < n * n,
{
    proof {
        lemma_grid_in_range(p, v, n as int);
    }
    let x2: u64 = (2 * (p.x as i64) - (v.width as i64 - v.height as i64)) as u64;
    let h: u64 = v.height as u64;
    assert(x2 * n <= 0x40_0000_0000 && (p.y as u64) * n <= 0x40_0000_0000) by (nonlinear_arith)
        requires
            x2 < 2 * h,
            h <= 0xffff_ffff,
            p.y < h,
            n <= 16,
    ;
    let file: u64 = x2 * n / (2 * h);
    let row: u64 = (p.y as u64) * n / h;
    let rank: u64 = n - row - 1;
    (file + n * rank) as u32
}

/// The square under the pointer: file `(x - (W-H)/2) * 8 / H`, rank
/// `8 - y * 8 / H - 1`, both rounded down, square `file + 8 * rank`.
pub fn to_square(p: Point, v: Viewport) -> (r: u32)
    requires
        on_cell(p, v),
    ensures
        r == square_at(p, v),
        r < 64,
{
    grid_index(p, v, 8)
}

/// The cell under the pointer on the 16 x 16 subdivision of the board,
/// computed as [`to_square`] at twice the resolution.
pub fn to_quarter_square(p: Point, v: Viewport) -> (r: u32)
    requires
        on_cell(p, v),
    ensures
        r == quarter_at(p, v),
        r < 256,
{
    grid_index(p, v, 16)
}

} // verus!
