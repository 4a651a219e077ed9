//! The selection state machine: press and release events over the board
//! select a square, drop a selected piece on a legal destination, or
//! deselect. Engine answers (game over, board contents, the legal moves of
//! the selected square) come in as plain values; a move to play goes out as
//! a [`MoveRequest`].
use crate::geometry::{
    is_on_cell, on_cell, quarter_at, square_at, to_quarter_square, to_square, Point, Viewport,
};
use crate::layers::{invalidated, LayerCache};
use crate::pieces::{back_rank, board_ok, is_back_rank, pawn_on, Piece, PieceKind};
use crate::promotion::{promotion_choice, resolve_promotion};
use vstd::prelude::*;

verus! {

#[derive(Clone, Copy, Debug, PartialEq, Eq, Structural)]
pub enum PointerEvent {
    Press(Point),
    Release(Point),
}

/// The pointer shape the presentation layer should show.
#[derive(Clone, Copy, Debug, PartialEq, Eq, Structural)]
pub enum CursorHint {
    Grab,
    Default,
}

/// A move for the engine to play. Where `promotion` is set, the moving
/// pawn's kind is overwritten with it before the move is made.
#[derive(Clone, Copy, Debug, PartialEq, Eq, Structural)]
pub struct MoveRequest {
    pub from: u32,
    pub to: u32,
    pub promotion: Option<PieceKind>,
}

/// What one pointer event asks of the surroundings.
#[derive(Clone, Copy, Debug, PartialEq, Eq, Structural)]
pub struct Reaction {
    pub move_request: Option<MoveRequest>,
    pub cursor: Option<CursorHint>,
}

/// What the controller does when the engine reports the game over.
#[derive(Clone, Copy, Debug, PartialEq, Eq, Structural)]
pub enum GameOverPolicy {
    /// Start a fresh game at once.
    Restart,
    /// Leave the finished position on screen; input is ignored.
    Freeze,
    /// Leave the decision to the owner's callback.
    Callback,
}

/// What the owner must do after the game-over check of a frame.
#[derive(Clone, Copy, Debug, PartialEq, Eq, Structural)]
pub enum GameOverAction {
    /// Nothing to do.
    Continue,
    /// Replace the engine's game with a fresh one.
    StartNewGame,
    /// Run the owner's game-over callback.
    InvokeCallback,
}

#[derive(Clone, Copy, Debug, PartialEq, Eq)]
pub struct Controller {
    pub selected: Option<u32>,
    pub last_move: Option<(u32, u32)>,
    /// Board background and pieces.
    pub board_layer: LayerCache,
    /// Selection, move markers and last-move highlights.
    pub marker_layer: LayerCache,
}

pub open spec fn occupied(cells: Seq<Option<Piece>>, s: int) -> bool {
    cells[s] is Some
}

pub open spec fn event_point(ev: PointerEvent) -> Point {
    match ev {
        PointerEvent::Press(p) => p,
        PointerEvent::Release(p) => p,
    }
}

pub open spec fn no_reaction() -> Reaction {
    Reaction { move_request: None, cursor: None }
}

/// The move from `from` to the square under `p`, with the promotion piece
/// chosen by the quarter square under `p` when a pawn reaches a back rank.
pub open spec fn move_for(cells: Seq<Option<Piece>>, from: int, p: Point, v: Viewport) -> MoveRequest {
    let to = square_at(p, v);
    MoveRequest {
        from: from as u32,
        to: to as u32,
        promotion: if pawn_on(cells, from) && back_rank(to) {
            Some(promotion_choice(to, quarter_at(p, v)))
        } else {
            None
        },
    }
}

/// State after playing a move: nothing selected, the move remembered, both
/// layers dirty.
pub open spec fn after_move(c: Controller, from: int, to: int) -> Controller {
    Controller {
        selected: None,
        last_move: Some((from as u32, to as u32)),
        board_layer: invalidated(c.board_layer),
        marker_layer: invalidated(c.marker_layer),
    }
}

/// State after a change of selection only: the marker layer is dirty.
pub open spec fn reselected(c: Controller, sel: Option<u32>) -> Controller {
    Controller {
        selected: sel,
        last_move: c.last_move,
        board_layer: c.board_layer,
        marker_layer: invalidated(c.marker_layer),
    }
}

/// The transition table. Events off the board's cells, and all events while
/// the game is over, are ignored. A press or release on a legal destination
/// of the selected square plays the move. Otherwise a press selects the
/// square under it if occupied and deselects if not (a press with nothing
/// selected on an empty square changes nothing); a release changes nothing.
pub open spec fn transition(
    c: Controller,
    ev: PointerEvent,
    v: Viewport,
    game_over: bool,
    cells: Seq<Option<Piece>>,
    legal: Seq<u32>,
) -> (Controller, Reaction) {
    let p = event_point(ev);
    let to = square_at(p, v);
    if !on_cell(p, v) || game_over {
        (c, no_reaction())
    } else if c.selected is Some && legal.contains(to as u32) {
        let from = c.selected->0 as int;
        (
            after_move(c, from, to),
            Reaction {
                move_request: Some(move_for(cells, from, p, v)),
                cursor: Some(CursorHint::Default),
            },
        )
    } else if ev is Release {
        (c, Reaction { move_request: None, cursor: Some(CursorHint::Default) })
    } else {
        let grab = Reaction { move_request: None, cursor: Some(CursorHint::Grab) };
        if occupied(cells, to) {
            (reselected(c, Some(to as u32)), grab)
        } else if c.selected is Some {
            (reselected(c, None), grab)
        } else {
            (c, grab)
        }
    }
}

/// Select, then move: from nothing selected, a press on an occupied square
/// selects it and requests no move; a following press or release on one of
/// that square's legal destinations requests exactly the move from the
/// selected square to that destination and leaves nothing selected.
pub proof fn lemma_select_then_move(
    c: Controller,
    p1: Point,
    second: PointerEvent,
    v: Viewport,
    cells: Seq<Option<Piece>>,
    legal_before: Seq<u32>,
    legal: Seq<u32>,
)
    requires
        c.wf(),
        board_ok(cells),
        c.selected is None,
        on_cell(p1, v),
        occupied(cells, square_at(p1, v)),
        on_cell(event_point(second), v),
        legal.contains(square_at(event_point(second), v) as u32),
    ensures
        ({
            let (c1, r1) = transition(c, PointerEvent::Press(p1), v, false, cells, legal_before);
            let (c2, r2) = transition(c1, second, v, false, cells, legal);
            &&& c1.selected == Some(square_at(p1, v) as u32)
            &&& r1.move_request is None
            &&& c2.selected is None
            &&& r2.move_request is Some
            &&& r2.move_request->0.from == square_at(p1, v)
            &&& r2.move_request->0.to == square_at(event_point(second), v)
            &&& c2.last_move == Some((r2.move_request->0.from, r2.move_request->0.to))
        }),
{
    crate::geometry::lemma_cells_in_range(p1, v);
    crate::geometry::lemma_cells_in_range(event_point(second), v);
}

/// Promotion: a pawn moved to a back rank, by a press or by a release,
/// carries the piece that the resolver picks from the quarter square under
/// the pointer, and that piece is never a pawn.
pub proof fn lemma_promotion_on_move(
    c: Controller,
    ev: PointerEvent,
    v: Viewport,
    cells: Seq<Option<Piece>>,
    legal: Seq<u32>,
)
    requires
        c.wf(),
        board_ok(cells),
        c.selected is Some,
        on_cell(event_point(ev), v),
        legal.contains(square_at(event_point(ev), v) as u32),
        pawn_on(cells, c.selected->0 as int),
        back_rank(square_at(event_point(ev), v)),
    ensures
        ({
            let p = event_point(ev);
            let r = transition(c, ev, v, false, cells, legal).1;
            &&& r.move_request is Some
            &&& r.move_request->0.promotion == Some(
                promotion_choice(square_at(p, v), quarter_at(p, v)),
            )
            &&& r.move_request->0.promotion != Some(PieceKind::Pawn)
        }),
{
    crate::promotion::lemma_pointer_quarter_resolves(event_point(ev), v);
}

/// Invalidation: a move marks both layers dirty; a change of selection alone
/// marks the marker layer dirty and leaves the board layer as it was; an
/// ignored event (off the board's cells, game over, a release that plays no
/// move, a press on an empty square with nothing selected) changes nothing.
pub proof fn lemma_invalidation(
    c: Controller,
    ev: PointerEvent,
    v: Viewport,
    game_over: bool,
    cells: Seq<Option<Piece>>,
    legal: Seq<u32>,
)
    requires
        c.wf(),
        board_ok(cells),
    ensures
        ({
            let (c2, r) = transition(c, ev, v, game_over, cells, legal);
            &&& r.move_request is Some ==> c2.board_layer.dirty && c2.marker_layer.dirty
            &&& r.move_request is None && c2.selected != c.selected ==> c2.marker_layer.dirty
                && c2.board_layer == c.board_layer
            &&& !on_cell(event_point(ev), v) || game_over ==> c2 == c
            &&& ev is Release && r.move_request is None ==> c2 == c
            &&& c.selected is None && c2.selected is None ==> c2 == c
        }),
{
}

/// Whether `s` is among `legal`.
fn contains_square(legal: &Vec<u32>, s: u32) -> (r: bool)
    ensures
        r == legal@.contains(s),
{
    let mut i: usize = 0;
    while i < legal.len()
        invariant
            i <= legal.len(),
            forall|j: int| 0 <= j < i ==> legal@[j] != s,
        decreases legal.len() - i,
    {
        if legal[i] == s {
            return true;
        }
        i = i + 1;
    }
    false
}

impl Controller {
    /// Selected and last-move squares lie on the board.
    pub open spec fn wf(self) -> bool {
        &&& (self.selected matches Some(s) ==> s < 64)
        &&& (self.last_move matches Some(m) ==> m.0 < 64 && m.1 < 64)
    }

    /// Nothing selected, no move played, both layers due for a build.
    pub fn new(v: Viewport) -> (r: Controller)
        ensures
            r.wf(),
            r.selected is None,
            r.last_move is None,
            r.board_layer.dirty && r.board_layer.size == v,
            r.marker_layer.dirty && r.marker_layer.size == v,
    {
        Controller {
            selected: None,
            last_move: None,
            board_layer: LayerCache::new(v),
            marker_layer: LayerCache::new(v),
        }
    }

    /// Handles one pointer event. `board` is the engine's board, `legal` the
    /// engine's legal destinations from the selected square (read only while
    /// a square is selected), and `game_over` whether the engine reports the
    /// game over.
    pub fn handle_event(
        &mut self,
        ev: PointerEvent,
        v: Viewport,
        game_over: bool,
        board: &Vec<Option<Piece>>,
        legal: &Vec<u32>,
    ) -> (r: Reaction)
        requires
            old(self).wf(),
            board_ok(board@),
        ensures
            final(self).wf(),
            (*final(self), r) == transition(*old(self), ev, v, game_over, board@, legal@),
    {
        let p = match ev {
            PointerEvent::Press(p) => p,
            PointerEvent::Release(p) => p,
        };
        if !is_on_cell(p, v) || game_over {
            return Reaction { move_request: None, cursor: None };
        }
        let to = to_square(p, v);
        if let Some(from) = self.selected {
            if contains_square(legal, to) {
                let mut promotion: Option<PieceKind> = None;
                if let Some(piece) = board[from as usize] {
                    if piece.kind == PieceKind::Pawn && is_back_rank(to) {
                        promotion = Some(resolve_promotion(to, to_quarter_square(p, v)));
                    }
                }
                self.selected = None;
                self.last_move = Some((from, to));
                self.board_layer.invalidate();
                self.marker_layer.invalidate();
                return Reaction {
                    move_request: Some(MoveRequest { from, to, promotion }),
                    cursor: Some(CursorHint::Default),
                };
            }
        }
        if let PointerEvent::Release(_) = ev {
            return Reaction { move_request: None, cursor: Some(CursorHint::Default) };
        }
        if board[to as usize].is_some() {
            self.selected = Some(to);
            self.marker_layer.invalidate();
        } else if self.selected.is_some() {
            self.selected = None;
            self.marker_layer.invalidate();
        }
        Reaction { move_request: None, cursor: Some(CursorHint::Grab) }
    }

    /// Applies the game-over policy once per frame. Under `Restart` a
    /// finished game is replaced: the controller forgets the last move and
    /// marks both layers dirty, and the owner must start a fresh game. Under
    /// `Callback` the owner is told to run its callback; under `Freeze`
    /// nothing happens. While the game is in progress nothing happens.
    pub fn on_game_state(&mut self, game_over: bool, policy: GameOverPolicy) -> (r: GameOverAction)
        requires
            old(self).wf(),
        ensures
            final(self).wf(),
            r == (if !game_over {
                GameOverAction::Continue
            } else {
                match policy {
                    GameOverPolicy::Restart => GameOverAction::StartNewGame,
                    GameOverPolicy::Freeze => GameOverAction::Continue,
                    GameOverPolicy::Callback => GameOverAction::InvokeCallback,
                }
            }),
            r == GameOverAction::StartNewGame ==> *final(self) == (Controller {
                selected: old(self).selected,
                last_move: None,
                board_layer: invalidated(old(self).board_layer),
                marker_layer: invalidated(old(self).marker_layer),
            }),
            r != GameOverAction::StartNewGame ==> *final(self) == *old(self),
    {
        if !game_over {
            return GameOverAction::Continue;
        }
        match policy {
            GameOverPolicy::Restart => {
                self.last_move = None;
                self.board_layer.invalidate();
                self.marker_layer.invalidate();
                GameOverAction::StartNewGame
            },
            GameOverPolicy::Freeze => GameOverAction::Continue,
            GameOverPolicy::Callback => GameOverAction::InvokeCallback,
        }
    }
}

} // verus!
