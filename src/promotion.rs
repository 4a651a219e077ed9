//! Choosing the promotion piece from where in the target square the pointer
//! went down: the square is split into a 2 x 2 grid of quarter squares, with
//! the queen top-left, the knight top-right, the rook bottom-left and the
//! bishop bottom-right.
use crate::geometry::{
    board_x2, grid_file, grid_rank, lemma_grid_in_range, on_cell, quarter_at, square_at, Point,
    Viewport,
};
use crate::pieces::PieceKind;
use vstd::arithmetic::div_mod::{lemma_fundamental_div_mod, lemma_mod_pos_bound};
use vstd::prelude::*;

verus! {

/// Quarter square of the knight in square `s`: its top-right quarter.
pub open spec fn knight_quarter(s: int) -> int {
    (s % 8 * 2 + 1) + 16 * (s / 8 * 2 + 1)
}

/// Quarter square of the bishop: bottom-right.
pub open spec fn bishop_quarter(s: int) -> int {
    knight_quarter(s) - 16
}

/// Quarter square of the queen: top-left.
pub open spec fn queen_quarter(s: int) -> int {
    knight_quarter(s) - 1
}

/// Quarter square of the rook: bottom-left.
pub open spec fn rook_quarter(s: int) -> int {
    queen_quarter(s) - 16
}

/// The piece whose quarter of square `s` is `q`; `Pawn` where `q` is none
/// of the four.
pub open spec fn promotion_choice(s: int, q: int) -> PieceKind {
    if q == queen_quarter(s) {
        PieceKind::Queen
    } else if q == rook_quarter(s) {
        PieceKind::Rook
    } else if q == knight_quarter(s) {
        PieceKind::Knight
    } else if q == bishop_quarter(s) {
        PieceKind::Bishop
    } else {
        PieceKind::Pawn
    }
}

/// The promotion piece chosen by the quarter square `quarter` of `square`.
/// `Pawn` marks a quarter outside the square, which a correct caller never
/// passes.
pub fn resolve_promotion(square: u32, quarter: u32) -> (r: PieceKind)
    requires
        square < 64,
    ensures
        r == promotion_choice(square as int, quarter as int),
{
    let file: u32 = square % 8;
    let rank: u32 = square / 8;
    let knight: u32 = (file * 2 + 1) + 16 * (rank * 2 + 1);
    let bishop: u32 = knight - 16;
    let queen: u32 = knight - 1;
    let rook: u32 = queen - 16;
    if quarter == queen {
        PieceKind::Queen
    } else if quarter == rook {
        PieceKind::Rook
    } else if quarter == knight {
        PieceKind::Knight
    } else if quarter == bishop {
        PieceKind::Bishop
    } else {
        PieceKind::Pawn
    }
}

/// Each of the four quarters of a square resolves to its own piece, and
/// every other value resolves to `Pawn`.
pub proof fn lemma_promotion_quarters(s: int, q: int)
    requires
        0 <= s < 64,
    ensures
        promotion_choice(s, queen_quarter(s)) == PieceKind::Queen,
        promotion_choice(s, rook_quarter(s)) == PieceKind::Rook,
        promotion_choice(s, knight_quarter(s)) == PieceKind::Knight,
        promotion_choice(s, bishop_quarter(s)) == PieceKind::Bishop,
        q != queen_quarter(s) && q != rook_quarter(s) && q != knight_quarter(s) && q
            != bishop_quarter(s) ==> promotion_choice(s, q) == PieceKind::Pawn,
{
}

/// Wherever the pointer names a square, its quarter square lies inside that
/// square, so the resolver picks one of the four promotion pieces.
pub proof fn lemma_pointer_quarter_resolves(p: Point, v: Viewport)
    requires
        on_cell(p, v),
    ensures
        promotion_choice(square_at(p, v), quarter_at(p, v)) != PieceKind::Pawn,
{
    let h = v.height as int;
    let x2 = board_x2(p, v);
    lemma_grid_in_range(p, v, 8);
    lemma_grid_in_range(p, v, 16);
    let file = grid_file(p, v, 8);
    let fine_file = grid_file(p, v, 16);
    let row = p.y * 8 / h;
    let fine_row = p.y * 16 / h;
    lemma_fundamental_div_mod(x2 * 8, 2 * h);
    lemma_mod_pos_bound(x2 * 8, 2 * h);
    lemma_fundamental_div_mod(x2 * 16, 2 * h);
    lemma_mod_pos_bound(x2 * 16, 2 * h);
    lemma_fundamental_div_mod(p.y * 8, h);
    lemma_mod_pos_bound(p.y * 8, h);
    lemma_fundamental_div_mod(p.y * 16, h);
    lemma_mod_pos_bound(p.y * 16, h);
    assert(fine_file == 2 * file || fine_file == 2 * file + 1) by (nonlinear_arith)
        requires
            x2 * 8 == 2 * h * file + (x2 * 8) % (2 * h),
            0 <= (x2 * 8) % (2 * h) < 2 * h,
            x2 * 16 == 2 * h * fine_file + (x2 * 16) % (2 * h),
            0 <= (x2 * 16) % (2 * h) < 2 * h,
            h > 0,
    ;
    assert(fine_row == 2 * row || fine_row == 2 * row + 1) by (nonlinear_arith)
        requires
            p.y * 8 == h * row + (p.y * 8) % h,
            0 <= (p.y * 8) % h < h,
            p.y * 16 == h * fine_row + (p.y * 16) % h,
            0 <= (p.y * 16) % h < h,
            h > 0,
    ;
    let s = square_at(p, v);
    let r8 = grid_rank(p, v, 8);
    assert(s % 8 == file && s / 8 == r8);
}

} // verus!
