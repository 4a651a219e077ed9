//! Pieces as the engine reports them on its 64-cell board.
use vstd::prelude::*;

verus! {

#[derive(Clone, Copy, Debug, PartialEq, Eq, Structural)]
pub enum PieceKind {
    Pawn,
    King,
    Knight,
    Bishop,
    Rook,
    Queen,
}

#[derive(Clone, Copy, Debug, PartialEq, Eq, Structural)]
pub enum PieceColor {
    White,
    Black,
}

#[derive(Clone, Copy, Debug, PartialEq, Eq, Structural)]
pub struct Piece {
    pub kind: PieceKind,
    pub color: PieceColor,
}

/// A board snapshot: 64 cells indexed by square, `None` for an empty cell.
pub open spec fn board_ok(cells: Seq<Option<Piece>>) -> bool {
    cells.len() == 64
}

/// Squares 56..63 and 0..7, where a pawn promotes.
pub open spec fn back_rank(s: int) -> bool {
    s > 55 || s < 8
}

/// Whether `s` is a back-rank square.
pub fn is_back_rank(s: u32) -> (r: bool)
    ensures
        r == back_rank(s as int),
{
    s > 55 || s < 8
}

pub open spec fn color_letter(c: PieceColor) -> char {
    match c {
        PieceColor::White => 'w',
        PieceColor::Black => 'b',
    }
}

pub open spec fn kind_letter(k: PieceKind) -> char {
    match k {
        PieceKind::Pawn => 'P',
        PieceKind::King => 'K',
        PieceKind::Knight => 'N',
        PieceKind::Bishop => 'B',
        PieceKind::Rook => 'R',
        PieceKind::Queen => 'Q',
    }
}

/// The two letters naming a piece's sprite: color (`w`, `b`), then kind
/// (`P`, `K`, `N`, `B`, `R`, `Q`).
pub fn sprite_letters(p: Piece) -> (r: (char, char))
    ensures
        r == (color_letter(p.color), kind_letter(p.kind)),
{
    let c = match p.color {
        PieceColor::White => 'w',
        PieceColor::Black => 'b',
    };
    let k = match p.kind {
        PieceKind::Pawn => 'P',
        PieceKind::King => 'K',
        PieceKind::Knight => 'N',
        PieceKind::Bishop => 'B',
        PieceKind::Rook => 'R',
        PieceKind::Queen => 'Q',
    };
    (c, k)
}

/// The piece on `s` is a pawn.
pub open spec fn pawn_on(cells: Seq<Option<Piece>>, s: int) -> bool {
    cells[s] matches Some(p) && p.kind == PieceKind::Pawn
}

} // verus!
