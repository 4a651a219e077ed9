//! What each visual layer draws, as an ordered list of primitives that a
//! rendering layer places on screen. The board layer holds the background
//! and the pieces; the marker layer the selection, the legal destinations of
//! the selected piece, and the last move.
use crate::controller::occupied;
use crate::pieces::{back_rank, board_ok, is_back_rank, pawn_on, Piece, PieceColor, PieceKind};
use crate::promotion::{bishop_quarter, knight_quarter, queen_quarter, rook_quarter};
use vstd::prelude::*;

verus! {

#[derive(Clone, Copy, Debug, PartialEq, Eq, Structural)]
pub enum Highlight {
    /// The selected square, darkened.
    Selection,
    /// Origin and destination of the last move, tinted yellow.
    LastMove,
}

#[derive(Clone, Copy, Debug, PartialEq, Eq, Structural)]
pub enum DrawPrimitive {
    Background,
    PieceSprite { square: u32, piece: Piece },
    SquareHighlight { square: u32, highlight: Highlight },
    /// A legal destination that is empty.
    MoveDot { square: u32 },
    /// A legal destination that holds a piece.
    CaptureRing { square: u32 },
    /// A small promotion candidate drawn in one quarter square.
    PromotionIcon { quarter: u32, piece: Piece },
    /// The darkened quarter square under a promotion candidate.
    QuarterHighlight { quarter: u32 },
}

/// One sprite per occupied square among the first `n`, in square order.
pub open spec fn piece_sprites(cells: Seq<Option<Piece>>, n: int) -> Seq<DrawPrimitive>
    decreases n,
{
    if n <= 0 {
        seq![]
    } else {
        piece_sprites(cells, n - 1) + match cells[n - 1] {
            Some(pc) => seq![DrawPrimitive::PieceSprite { square: (n - 1) as u32, piece: pc }],
            None => seq![],
        }
    }
}

/// The board layer: the background, then the pieces.
pub open spec fn board_plan(cells: Seq<Option<Piece>>) -> Seq<DrawPrimitive> {
    seq![DrawPrimitive::Background] + piece_sprites(cells, 64)
}

/// The four promotion candidates of `color` in the quarters of square `m`,
/// queen, knight, rook, bishop, each icon followed by its quarter highlight.
pub open spec fn promotion_marks(m: int, color: PieceColor) -> Seq<DrawPrimitive> {
    let icon = |kind: PieceKind, q: int|
        DrawPrimitive::PromotionIcon { quarter: q as u32, piece: Piece { kind, color } };
    let shade = |q: int| DrawPrimitive::QuarterHighlight { quarter: q as u32 };
    seq![
        icon(PieceKind::Queen, queen_quarter(m)),
        shade(queen_quarter(m)),
        icon(PieceKind::Knight, knight_quarter(m)),
        shade(knight_quarter(m)),
        icon(PieceKind::Rook, rook_quarter(m)),
        shade(rook_quarter(m)),
        icon(PieceKind::Bishop, bishop_quarter(m)),
        shade(bishop_quarter(m)),
    ]
}

/// Marks for the legal destination `m` of the piece on `from`: promotion
/// candidates for a pawn reaching a back rank, else a capture ring on an
/// occupied square or a dot on an empty one.
pub open spec fn destination_marks(cells: Seq<Option<Piece>>, from: int, m: int) -> Seq<
    DrawPrimitive,
> {
    if pawn_on(cells, from) && back_rank(m) {
        promotion_marks(m, cells[from]->0.color)
    } else if occupied(cells, m) {
        seq![DrawPrimitive::CaptureRing { square: m as u32 }]
    } else {
        seq![DrawPrimitive::MoveDot { square: m as u32 }]
    }
}

/// Marks for the first `n` legal destinations, in the order given.
pub open spec fn move_marks(cells: Seq<Option<Piece>>, from: int, legal: Seq<u32>, n: int) -> Seq<
    DrawPrimitive,
>
    decreases n,
{
    if n <= 0 {
        seq![]
    } else {
        move_marks(cells, from, legal, n - 1) + destination_marks(cells, from, legal[n - 1] as int)
    }
}

/// The marker layer: the selected square and its legal destinations, then
/// both squares of the last move.
pub open spec fn marker_plan(
    cells: Seq<Option<Piece>>,
    selected: Option<u32>,
    legal: Seq<u32>,
    last_move: Option<(u32, u32)>,
) -> Seq<DrawPrimitive> {
    let selection = match selected {
        Some(s) => seq![
            DrawPrimitive::SquareHighlight { square: s, highlight: Highlight::Selection },
        ] + move_marks(cells, s as int, legal, legal.len() as int),
        None => seq![],
    };
    let last = match last_move {
        Some((a, b)) => seq![
            DrawPrimitive::SquareHighlight { square: a, highlight: Highlight::LastMove },
            DrawPrimitive::SquareHighlight { square: b, highlight: Highlight::LastMove },
        ],
        None => seq![],
    };
    selection + last
}

/// Every legal destination is a square of the board.
pub open spec fn squares_ok(legal: Seq<u32>) -> bool {
    forall|i: int| 0 <= i < legal.len() ==> legal[i] < 64
}

/// Builds the board layer.
pub fn plan_board(board: &Vec<Option<Piece>>) -> (r: Vec<DrawPrimitive>)
    requires
        board_ok(board@),
    ensures
        r@ == board_plan(board@),
{
    let mut out: Vec<DrawPrimitive> = Vec::new();
    out.push(DrawPrimitive::Background);
    let mut i: usize = 0;
    while i < 64
        invariant
            i <= 64,
            board_ok(board@),
            out@ == seq![DrawPrimitive::Background] + piece_sprites(board@, i as int),
        decreases 64 - i,
    {
        let ghost before = out@;
        if let Some(pc) = board[i] {
            out.push(DrawPrimitive::PieceSprite { square: i as u32, piece: pc });
        }
        proof {
            assert(out@ =~= seq![DrawPrimitive::Background] + piece_sprites(board@, i + 1));
        }
        i = i + 1;
    }
    out
}

fn push_promotion_marks(out: &mut Vec<DrawPrimitive>, m: u32, color: PieceColor)
    requires
        m < 64,
    ensures
        final(out)@ == old(out)@ + promotion_marks(m as int, color),
{
    let knight: u32 = (m % 8 * 2 + 1) + 16 * (m / 8 * 2 + 1);
    let queen: u32 = knight - 1;
    let rook: u32 = queen - 16;
    let bishop: u32 = knight - 16;
    out.push(
        DrawPrimitive::PromotionIcon { quarter: queen, piece: Piece { kind: PieceKind::Queen, color } },
    );
    out.push(DrawPrimitive::QuarterHighlight { quarter: queen });
    out.push(
        DrawPrimitive::PromotionIcon {
            quarter: knight,
            piece: Piece { kind: PieceKind::Knight, color },
        },
    );
    out.push(DrawPrimitive::QuarterHighlight { quarter: knight });
    out.push(
        DrawPrimitive::PromotionIcon { quarter: rook, piece: Piece { kind: PieceKind::Rook, color } },
    );
    out.push(DrawPrimitive::QuarterHighlight { quarter: rook });
    out.push(
        DrawPrimitive::PromotionIcon {
            quarter: bishop,
            piece: Piece { kind: PieceKind::Bishop, color },
        },
    );
    out.push(DrawPrimitive::QuarterHighlight { quarter: bishop });
    assert(final(out)@ =~= old(out)@ + promotion_marks(m as int, color));
}

fn push_destination_marks(out: &mut Vec<DrawPrimitive>, board: &Vec<Option<Piece>>, from: u32, m: u32)
    requires
        board_ok(board@),
        from < 64,
        m < 64,
    ensures
        final(out)@ == old(out)@ + destination_marks(board@, from as int, m as int),
{
    if let Some(pc) = board[from as usize] {
        if pc.kind == PieceKind::Pawn && is_back_rank(m) {
            push_promotion_marks(out, m, pc.color);
            return;
        }
    }
    if board[m as usize].is_some() {
        out.push(DrawPrimitive::CaptureRing { square: m });
    } else {
        out.push(DrawPrimitive::MoveDot { square: m });
    }
    assert(final(out)@ =~= old(out)@ + destination_marks(board@, from as int, m as int));
}

/// Builds the marker layer from the selection, the legal destinations of
/// the selected square (read only while a square is selected), and the last
/// move.
pub fn plan_markers(
    board: &Vec<Option<Piece>>,
    selected: Option<u32>,
    legal: &Vec<u32>,
    last_move: Option<(u32, u32)>,
) -> (r: Vec<DrawPrimitive>)
    requires
        board_ok(board@),
        selected matches Some(s) ==> s < 64,
        squares_ok(legal@),
    ensures
        r@ == marker_plan(board@, selected, legal@, last_move),
{
    let mut out: Vec<DrawPrimitive> = Vec::new();
    if let Some(s) = selected {
        out.push(DrawPrimitive::SquareHighlight { square: s, highlight: Highlight::Selection });
        let ghost head = out@;
        let mut i: usize = 0;
        while i < legal.len()
            invariant
                i <= legal.len(),
                board_ok(board@),
                s < 64,
                squares_ok(legal@),
                out@ == head + move_marks(board@, s as int, legal@, i as int),
            decreases legal.len() - i,
        {
            push_destination_marks(&mut out, board, s, legal[i]);
            proof {
                assert(out@ =~= head + move_marks(board@, s as int, legal@, i + 1));
            }
            i = i + 1;
        }
    }
    if let Some((a, b)) = last_move {
        out.push(DrawPrimitive::SquareHighlight { square: a, highlight: Highlight::LastMove });
        out.push(DrawPrimitive::SquareHighlight { square: b, highlight: Highlight::LastMove });
    }
    assert(out@ =~= marker_plan(board@, selected, legal@, last_move));
    out
}

} // verus!
