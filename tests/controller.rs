use chess_board::controller::{
    Controller, CursorHint, GameOverAction, GameOverPolicy, MoveRequest, PointerEvent, Reaction,
};
use chess_board::geometry::{Point, Viewport};
use chess_board::pieces::{Piece, PieceColor, PieceKind};

const V: Viewport = Viewport { width: 800, height: 800 };

fn empty_board() -> Vec<Option<Piece>> {
    vec![None; 64]
}

fn with(mut b: Vec<Option<Piece>>, s: usize, kind: PieceKind, color: PieceColor) -> Vec<Option<Piece>> {
    b[s] = Some(Piece { kind, color });
    b
}

/// Center of square `s` on the 800 x 800 board.
fn center(s: u32) -> Point {
    Point { x: (s % 8) * 100 + 50, y: (7 - s / 8) * 100 + 50 }
}

/// A controller whose layers were just built.
fn settled() -> Controller {
    let mut c = Controller::new(V);
    c.board_layer.mark_rebuilt(V);
    c.marker_layer.mark_rebuilt(V);
    c
}

#[test]
fn new_controller_is_idle_and_dirty() {
    let c = Controller::new(V);
    assert_eq!(c.selected, None);
    assert_eq!(c.last_move, None);
    assert!(c.board_layer.dirty && c.marker_layer.dirty);
}

#[test]
fn press_selects_then_press_moves() {
    let board = with(empty_board(), 12, PieceKind::Knight, PieceColor::White);
    let mut c = settled();
    let r = c.handle_event(PointerEvent::Press(center(12)), V, false, &board, &vec![]);
    assert_eq!(r, Reaction { move_request: None, cursor: Some(CursorHint::Grab) });
    assert_eq!(c.selected, Some(12));
    assert!(c.marker_layer.dirty);
    assert!(!c.board_layer.dirty);
    let r = c.handle_event(PointerEvent::Press(center(29)), V, false, &board, &vec![2, 27, 29]);
    assert_eq!(r.move_request, Some(MoveRequest { from: 12, to: 29, promotion: None }));
    assert_eq!(c.selected, None);
    assert_eq!(c.last_move, Some((12, 29)));
    assert!(c.board_layer.dirty && c.marker_layer.dirty);
}

#[test]
fn release_drops_grabbed_piece() {
    let board = with(empty_board(), 1, PieceKind::Knight, PieceColor::White);
    let mut c = settled();
    c.handle_event(PointerEvent::Press(center(1)), V, false, &board, &vec![]);
    let r = c.handle_event(PointerEvent::Release(center(18)), V, false, &board, &vec![11, 16, 18]);
    assert_eq!(
        r,
        Reaction {
            move_request: Some(MoveRequest { from: 1, to: 18, promotion: None }),
            cursor: Some(CursorHint::Default),
        }
    );
    assert_eq!(c.selected, None);
    assert_eq!(c.last_move, Some((1, 18)));
}

#[test]
fn white_pawn_promotes_to_queen_on_release() {
    let board = with(empty_board(), 52, PieceKind::Pawn, PieceColor::White);
    let mut c = settled();
    c.handle_event(PointerEvent::Press(Point { x: 450, y: 150 }), V, false, &board, &vec![]);
    assert_eq!(c.selected, Some(52));
    // top-left quarter of square 60
    let r = c.handle_event(PointerEvent::Release(Point { x: 420, y: 20 }), V, false, &board, &vec![60]);
    assert_eq!(
        r.move_request,
        Some(MoveRequest { from: 52, to: 60, promotion: Some(PieceKind::Queen) })
    );
    assert_eq!(c.last_move, Some((52, 60)));
}

#[test]
fn black_pawn_promotes_on_press_by_quarter() {
    let board = with(empty_board(), 11, PieceKind::Pawn, PieceColor::Black);
    let mut c = settled();
    c.handle_event(PointerEvent::Press(center(11)), V, false, &board, &vec![]);
    // square 3 spans x 300..400, y 700..800; bottom-right quarter is the bishop
    let r = c.handle_event(PointerEvent::Press(Point { x: 380, y: 780 }), V, false, &board, &vec![3]);
    assert_eq!(
        r.move_request,
        Some(MoveRequest { from: 11, to: 3, promotion: Some(PieceKind::Bishop) })
    );
    let mut c = settled();
    c.handle_event(PointerEvent::Press(center(11)), V, false, &board, &vec![]);
    let r = c.handle_event(PointerEvent::Press(Point { x: 320, y: 780 }), V, false, &board, &vec![3]);
    assert_eq!(r.move_request.unwrap().promotion, Some(PieceKind::Rook));
}

#[test]
fn non_pawn_on_back_rank_does_not_promote() {
    let board = with(empty_board(), 48, PieceKind::Rook, PieceColor::White);
    let mut c = settled();
    c.handle_event(PointerEvent::Press(center(48)), V, false, &board, &vec![]);
    let r = c.handle_event(PointerEvent::Press(center(56)), V, false, &board, &vec![56]);
    assert_eq!(r.move_request, Some(MoveRequest { from: 48, to: 56, promotion: None }));
}

#[test]
fn press_on_other_piece_reselects() {
    let board = with(with(empty_board(), 12, PieceKind::Pawn, PieceColor::White), 6, PieceKind::Knight, PieceColor::White);
    let mut c = settled();
    c.handle_event(PointerEvent::Press(center(12)), V, false, &board, &vec![]);
    c.marker_layer.mark_rebuilt(V);
    let r = c.handle_event(PointerEvent::Press(center(6)), V, false, &board, &vec![20, 28]);
    assert_eq!(r.move_request, None);
    assert_eq!(c.selected, Some(6));
    assert!(c.marker_layer.dirty);
    assert!(!c.board_layer.dirty);
}

#[test]
fn press_on_empty_non_destination_deselects() {
    let board = with(empty_board(), 12, PieceKind::Pawn, PieceColor::White);
    let mut c = settled();
    c.handle_event(PointerEvent::Press(center(12)), V, false, &board, &vec![]);
    c.marker_layer.mark_rebuilt(V);
    let r = c.handle_event(PointerEvent::Press(center(40)), V, false, &board, &vec![20, 28]);
    assert_eq!(r, Reaction { move_request: None, cursor: Some(CursorHint::Grab) });
    assert_eq!(c.selected, None);
    assert!(c.marker_layer.dirty);
    assert!(!c.board_layer.dirty);
    assert_eq!(c.last_move, None);
}

#[test]
fn illegal_release_keeps_selection() {
    let board = with(with(empty_board(), 12, PieceKind::Pawn, PieceColor::White), 6, PieceKind::Knight, PieceColor::White);
    let mut c = settled();
    c.handle_event(PointerEvent::Press(center(12)), V, false, &board, &vec![]);
    c.marker_layer.mark_rebuilt(V);
    let before = c;
    let r = c.handle_event(PointerEvent::Release(center(6)), V, false, &board, &vec![20, 28]);
    assert_eq!(r, Reaction { move_request: None, cursor: Some(CursorHint::Default) });
    assert_eq!(c, before);
}

#[test]
fn ignored_events_change_nothing() {
    let board = with(empty_board(), 12, PieceKind::Pawn, PieceColor::White);
    let wide = Viewport { width: 1000, height: 800 };
    let mut c = settled();
    c.board_layer.mark_rebuilt(wide);
    c.marker_layer.mark_rebuilt(wide);
    let before = c;
    // left of the board
    let r = c.handle_event(PointerEvent::Press(Point { x: 50, y: 400 }), wide, false, &board, &vec![]);
    assert_eq!(r, Reaction { move_request: None, cursor: None });
    assert_eq!(c, before);
    // on an occupied square, but the game is over
    let r = c.handle_event(PointerEvent::Press(Point { x: 550, y: 650 }), wide, true, &board, &vec![]);
    assert_eq!(r, Reaction { move_request: None, cursor: None });
    assert_eq!(c, before);
    // press on an empty square with nothing selected
    let r = c.handle_event(PointerEvent::Press(Point { x: 550, y: 50 }), wide, false, &board, &vec![]);
    assert_eq!(r.move_request, None);
    assert_eq!(c, before);
    // release with nothing selected
    let r = c.handle_event(PointerEvent::Release(Point { x: 550, y: 650 }), wide, false, &board, &vec![]);
    assert_eq!(r.move_request, None);
    assert_eq!(c, before);
}

#[test]
fn game_over_restart_resets_last_move_and_dirties_layers() {
    let board = with(empty_board(), 12, PieceKind::Pawn, PieceColor::White);
    let mut c = settled();
    c.handle_event(PointerEvent::Press(center(12)), V, false, &board, &vec![]);
    c.handle_event(PointerEvent::Press(center(28)), V, false, &board, &vec![20, 28]);
    c.board_layer.mark_rebuilt(V);
    c.marker_layer.mark_rebuilt(V);
    assert_eq!(c.on_game_state(false, GameOverPolicy::Restart), GameOverAction::Continue);
    assert_eq!(c.last_move, Some((12, 28)));
    assert!(!c.board_layer.dirty);
    assert_eq!(c.on_game_state(true, GameOverPolicy::Restart), GameOverAction::StartNewGame);
    assert_eq!(c.last_move, None);
    assert!(c.board_layer.dirty && c.marker_layer.dirty);
}

#[test]
fn game_over_freeze_keeps_state() {
    let mut c = settled();
    c.last_move = Some((12, 28));
    let before = c;
    assert_eq!(c.on_game_state(true, GameOverPolicy::Freeze), GameOverAction::Continue);
    assert_eq!(c, before);
}

#[test]
fn game_over_callback_is_reported_once_per_check() {
    let mut c = settled();
    c.last_move = Some((12, 28));
    let before = c;
    assert_eq!(c.on_game_state(true, GameOverPolicy::Callback), GameOverAction::InvokeCallback);
    assert_eq!(c, before);
    assert_eq!(c.on_game_state(false, GameOverPolicy::Callback), GameOverAction::Continue);
}
