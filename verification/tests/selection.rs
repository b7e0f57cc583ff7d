use std::collections::HashMap;
use std::collections::HashSet;

use gambit::board_state::{BoardState, Entity, TileHints};
use gambit::indicators::Indicators;
use gambit::piece::{PieceColor, PieceMeta, PieceType};
use gambit::selection::{handle_mouse_selection_event, MouseSelectionEvent, MovePiece, SelectionState};
use gambit::square::Square;

const DRAG_CONTAINER: Entity = 9999;

fn tile_entity(sq: Square) -> Entity {
    1000 + sq.to_index() as Entity
}

fn highlight_entity(sq: Square) -> Entity {
    2000 + sq.to_index() as Entity
}

fn move_hint_entity(sq: Square) -> Entity {
    3000 + sq.to_index() as Entity
}

fn capture_hint_entity(sq: Square) -> Entity {
    4000 + sq.to_index() as Entity
}

fn piece_entity(sq: Square) -> Entity {
    5000 + sq.to_index() as Entity
}

/// A board in the starting position with every entity in place, the selection state, the
/// indicators, the parent of each piece, and the moves requested.
struct TestApp {
    board: BoardState,
    state: SelectionState,
    selected: Vec<Entity>,
    hinted: Vec<Entity>,
    indicators: Indicators,
    parents: HashMap<Entity, Entity>,
    moves: Vec<(Entity, MovePiece)>,
}

fn build_app() -> TestApp {
    let mut board = BoardState::new(chess::Board::default(), 0, 1);
    let mut parents = HashMap::new();
    for i in 0..64u8 {
        let sq = Square::from_index(i);
        board.set_tile(sq, tile_entity(sq));
        board.set_highlight(sq, highlight_entity(sq));
        board.set_tile_hints(
            sq,
            TileHints { move_entity: move_hint_entity(sq), capture_entity: capture_hint_entity(sq) },
        );
        if board.get_piece_meta(sq).is_some() {
            board.set_piece(sq, piece_entity(sq));
            parents.insert(piece_entity(sq), tile_entity(sq));
        }
    }
    TestApp {
        board,
        state: SelectionState::default(),
        selected: Vec::new(),
        hinted: Vec::new(),
        indicators: Indicators::new(),
        parents,
        moves: Vec::new(),
    }
}

impl TestApp {
    fn square_of_piece(&self, piece: Entity) -> Square {
        (0..64u8)
            .map(Square::from_index)
            .find(|sq| self.board.get_piece(*sq) == Some(piece))
            .expect("piece on the board")
    }

    fn send_event(&mut self, event: MouseSelectionEvent) {
        let (_, effects) = handle_mouse_selection_event(&mut self.state, event, &self.board);
        if let Some((piece, _)) = effects.start_drag {
            self.parents.insert(piece, DRAG_CONTAINER);
        }
        if let Some(piece) = effects.end_drag {
            let sq = self.square_of_piece(piece);
            self.parents.insert(piece, tile_entity(sq));
        }
        if let Some(event) = effects.selection_event {
            self.indicators.handle_selection_event(&event, &self.board);
        }
        if let Some(mv) = effects.move_piece {
            self.moves.push(mv);
        }
    }

    fn set_state(&mut self, state: SelectionState) {
        self.state = state;
    }

    fn rebuild_indicators(&mut self) {
        self.indicators =
            Indicators::from_marks(self.selected.clone(), Vec::new(), self.hinted.clone(), Vec::new());
    }

    fn set_selected(&mut self, square: Square) {
        self.selected.push(self.board.highlight(square));
        self.rebuild_indicators();
    }

    fn set_hints(&mut self, squares: &[Square]) {
        for sq in squares {
            self.hinted.push(self.board.tile_hints(*sq).move_entity);
        }
        self.rebuild_indicators();
    }

    fn set_piece_to_drag_container(&mut self, square: Square) {
        let piece = self.board.piece(square);
        self.parents.insert(piece, DRAG_CONTAINER);
    }

    fn assert_state(&self, expected: SelectionState) {
        assert_eq!(self.state, expected);
    }

    fn assert_piece_in_drag_container(&self, square: Square) {
        let expected: HashSet<Entity> = HashSet::from([self.board.piece(square)]);
        let actual: HashSet<Entity> = self
            .parents
            .iter()
            .filter(|(_, parent)| **parent == DRAG_CONTAINER)
            .map(|(child, _)| *child)
            .collect();
        assert_eq!(actual, expected);
    }

    fn assert_piece_move_marker(&self, expected: MovePiece) {
        let actual = self.moves.first().map(|(_, mv)| *mv);
        assert_eq!(actual, Some(expected), "move piece event on piece");
    }

    fn assert_selected(&self, expected: Option<Square>) {
        match expected {
            Some(sq) => {
                assert!(self.indicators.is_selected(self.board.highlight(sq)), "selected highlight tile entity");
            },
            None => {
                let count = (0..64u8)
                    .map(Square::from_index)
                    .filter(|sq| self.indicators.is_selected(self.board.highlight(*sq)))
                    .count();
                assert_eq!(count, 0, "count of selected highlight tile entities");
            },
        }
    }

    fn assert_hints(&self, expected: &[Square]) {
        let expected: HashSet<Entity> =
            expected.iter().map(|sq| self.board.tile_hints(*sq).move_entity).collect();
        let mut actual = HashSet::new();
        for i in 0..64u8 {
            let hints = self.board.tile_hints(Square::from_index(i));
            for e in [hints.move_entity, hints.capture_entity] {
                if self.indicators.is_hinted(e) {
                    actual.insert(e);
                }
            }
        }
        assert_eq!(actual, expected, "enabled hint entities");
    }

    fn assert_piece_on_tile(&self, sq: Square, color: PieceColor, typ: PieceType) {
        assert_eq!(
            self.board.get_piece_meta(sq),
            Some(PieceMeta::new(color, typ)),
            "piece at square {sq:?} in piece state is not a {color:?} {typ:?}"
        );
        let piece = self.board.piece(sq);
        assert_eq!(
            self.parents.get(&piece).copied(),
            Some(self.board.tile(sq)),
            "piece at square {sq:?} in piece state is a child of {sq:?} tile"
        );
    }
}

#[test]
fn unselected_is_initial_state() {
    let app = build_app();

    app.assert_state(SelectionState::Unselected);
}

#[test]
fn unselected_starts_dragging_on_mouse_down_on_piece() {
    let mut app = build_app();

    app.send_event(MouseSelectionEvent::MouseDown(Square::D2));

    app.assert_state(SelectionState::SelectingDragging(Square::D2));
    app.assert_piece_in_drag_container(Square::D2);
    app.assert_selected(Some(Square::D2));
    app.assert_hints(&[Square::D3, Square::D4]);
}

#[test]
fn unselected_does_nothing_on_mouse_down_when_not_on_piece() {
    let mut app = build_app();

    app.send_event(MouseSelectionEvent::MouseDown(Square::D4));

    app.assert_state(SelectionState::Unselected);
    app.assert_selected(None);
    app.assert_hints(&[]);
}

#[test]
fn unselected_does_nothing_on_mouse_up() {
    let mut app = build_app();

    app.send_event(MouseSelectionEvent::MouseUp(Square::A1));

    app.assert_state(SelectionState::Unselected);
    app.assert_selected(None);
    app.assert_hints(&[]);
}

#[test]
fn selecting_dragging_makes_move_on_mouse_up_when_on_valid_move() {
    let mut app = build_app();
    app.set_state(SelectionState::SelectingDragging(Square::D2));
    app.set_selected(Square::D2);
    app.set_hints(&[Square::D3, Square::D4]);
    app.set_piece_to_drag_container(Square::D2);

    app.send_event(MouseSelectionEvent::MouseUp(Square::D4));

    app.assert_state(SelectionState::Unselected);
    app.assert_piece_move_marker(MovePiece::new(Square::D2, Square::D4, None, false));
}

#[test]
fn selecting_dragging_selects_on_mouse_up_when_not_a_move() {
    let mut app = build_app();
    app.set_state(SelectionState::SelectingDragging(Square::D2));
    app.set_selected(Square::D2);
    app.set_hints(&[Square::D3, Square::D4]);
    app.set_piece_to_drag_container(Square::D2);

    app.send_event(MouseSelectionEvent::MouseUp(Square::A8));

    app.assert_state(SelectionState::Selected(Square::D2));
    app.assert_piece_on_tile(Square::D2, PieceColor::WHITE, PieceType::PAWN);
    app.assert_selected(Some(Square::D2));
    app.assert_hints(&[Square::D3, Square::D4]);
}

#[test]
fn selected_starts_dragging_on_mouse_down_on_selected_tile() {
    let mut app = build_app();
    app.set_state(SelectionState::Selected(Square::D2));
    app.set_selected(Square::D2);
    app.set_hints(&[Square::D3, Square::D4]);

    app.send_event(MouseSelectionEvent::MouseDown(Square::D2));

    app.assert_state(SelectionState::SelectedDragging(Square::D2));
    app.assert_piece_in_drag_container(Square::D2);
    app.assert_selected(Some(Square::D2));
    app.assert_hints(&[Square::D3, Square::D4]);
}

#[test]
fn selected_makes_move_on_mouse_down_when_on_valid_move() {
    let mut app = build_app();
    app.set_state(SelectionState::Selected(Square::D2));
    app.set_selected(Square::D2);
    app.set_hints(&[Square::D3, Square::D4]);

    app.send_event(MouseSelectionEvent::MouseDown(Square::D4));

    app.assert_state(SelectionState::Unselected);
    app.assert_piece_move_marker(MovePiece::new(Square::D2, Square::D4, None, true));
}

#[test]
fn selected_starts_dragging_on_mouse_down_on_different_piece() {
    let mut app = build_app();
    app.set_state(SelectionState::Selected(Square::D2));
    app.set_selected(Square::D2);
    app.set_hints(&[Square::D3, Square::D4]);

    app.send_event(MouseSelectionEvent::MouseDown(Square::H2));

    app.assert_state(SelectionState::SelectingDragging(Square::H2));
    app.assert_piece_on_tile(Square::D2, PieceColor::WHITE, PieceType::PAWN);
    app.assert_piece_in_drag_container(Square::H2);
    app.assert_selected(Some(Square::H2));
    app.assert_hints(&[Square::H3, Square::H4]);
}

#[test]
fn selected_unselects_on_mouse_down_when_not_on_a_piece() {
    let mut app = build_app();
    app.set_state(SelectionState::Selected(Square::D2));
    app.set_selected(Square::D2);
    app.set_hints(&[Square::D3, Square::D4]);

    app.send_event(MouseSelectionEvent::MouseDown(Square::E4));

    app.assert_state(SelectionState::Unselected);
    app.assert_selected(None);
    app.assert_hints(&[]);
}

#[test]
fn selected_does_nothing_on_mouse_up() {
    let mut app = build_app();
    app.set_state(SelectionState::Selected(Square::D2));
    app.set_selected(Square::D2);
    app.set_hints(&[Square::D3, Square::D4]);

    app.send_event(MouseSelectionEvent::MouseUp(Square::A1));

    app.assert_state(SelectionState::Selected(Square::D2));
    app.assert_selected(Some(Square::D2));
    app.assert_hints(&[Square::D3, Square::D4]);
}

#[test]
fn selected_dragging_unselects_on_mouse_up_on_selected_tile() {
    let mut app = build_app();
    app.set_state(SelectionState::SelectedDragging(Square::D2));
    app.set_selected(Square::D2);
    app.set_hints(&[Square::D3, Square::D4]);
    app.set_piece_to_drag_container(Square::D2);

    app.send_event(MouseSelectionEvent::MouseUp(Square::D2));

    app.assert_state(SelectionState::Unselected);
    app.assert_piece_on_tile(Square::D2, PieceColor::WHITE, PieceType::PAWN);
    app.assert_selected(None);
    app.assert_hints(&[]);
}

#[test]
fn selected_dragging_makes_move_on_mouse_up_when_on_valid_move() {
    let mut app = build_app();
    app.set_state(SelectionState::SelectedDragging(Square::D2));
    app.set_selected(Square::D2);
    app.set_hints(&[Square::D3, Square::D4]);
    app.set_piece_to_drag_container(Square::D2);

    app.send_event(MouseSelectionEvent::MouseUp(Square::D4));

    app.assert_state(SelectionState::Unselected);
    app.assert_piece_move_marker(MovePiece::new(Square::D2, Square::D4, None, false));
}

#[test]
fn selected_dragging_reselects_on_mouse_up_when_not_a_move() {
    let mut app = build_app();
    app.set_state(SelectionState::SelectedDragging(Square::D2));
    app.set_selected(Square::D2);
    app.set_hints(&[Square::D3, Square::D4]);
    app.set_piece_to_drag_container(Square::D2);

    app.send_event(MouseSelectionEvent::MouseUp(Square::A8));

    app.assert_state(SelectionState::Selected(Square::D2));
    app.assert_piece_on_tile(Square::D2, PieceColor::WHITE, PieceType::PAWN);
    app.assert_selected(Some(Square::D2));
    app.assert_hints(&[Square::D3, Square::D4]);
}
