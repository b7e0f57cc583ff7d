use vstd::prelude::*;

use crate::board_state::{spec_valid_move_hints, BoardState, Entity};
use crate::piece::PieceType;
use crate::square::Square;

verus! {

/// Where the user is in selecting a piece with the mouse.
#[derive(Clone, Copy, Debug, PartialEq, Eq, Structural)]
pub enum SelectionState {
    /// No piece is selected.
    Unselected,
    /// The mouse went down on a piece, which is now selected and follows the mouse.
    SelectingDragging(Square),
    /// A piece is selected and rests on its square.
    Selected(Square),
    /// The mouse went down on the already selected piece, which follows the mouse.
    SelectedDragging(Square),
}

impl SelectionState {
    /// The selected square, if any.
    pub open spec fn spec_square(self) -> Option<Square> {
        match self {
            SelectionState::Unselected => None,
            SelectionState::SelectingDragging(sq) => Some(sq),
            SelectionState::Selected(sq) => Some(sq),
            SelectionState::SelectedDragging(sq) => Some(sq),
        }
    }

    /// The initial state: nothing selected.
    pub fn default() -> (s: SelectionState)
        ensures
            s == SelectionState::Unselected,
    {
        SelectionState::Unselected
    }
}

/// What a mouse event makes the selection do.
#[derive(Clone, Copy, Debug, PartialEq, Eq, Structural)]
pub enum SelectionStateAction {
    /// Select another piece and start dragging it.
    ChangeSelection(Square),
    /// Drop the dragged piece back on its square, keeping it selected.
    DropSelect(Square),
    /// Move the selected piece; `animate` when it was not dragged there.
    Move { from_sq: Square, to_sq: Square, animate: bool },
    /// Nothing.
    NoAction,
    /// Start dragging the already selected piece.
    StartSelectedDragging(Square),
    /// Select a piece and start dragging it.
    StartSelectingDragging(Square),
    /// Drop the piece back on its square and clear the selection.
    Unselect(Square),
}

/// A press or a release of the mouse button over a square.
#[derive(Clone, Copy, Debug, PartialEq, Eq, Structural)]
pub enum MouseSelectionEvent {
    MouseDown(Square),
    MouseUp(Square),
}

/// A pressed mouse button cannot be pressed again while a piece is dragged.
pub open spec fn spec_event_possible(state: SelectionState, event: MouseSelectionEvent) -> bool {
    match (state, event) {
        (SelectionState::SelectingDragging(_), MouseSelectionEvent::MouseDown(_)) => false,
        (SelectionState::SelectedDragging(_), MouseSelectionEvent::MouseDown(_)) => false,
        _ => true,
    }
}

/// The action for a mouse event in a selection state, given the board:
/// - unselected: pressing on a piece selects it and starts dragging it;
/// - selecting by dragging: releasing on a legal destination moves the piece, releasing
///   elsewhere drops it and keeps it selected;
/// - selected: pressing on the piece again starts dragging it, pressing on a legal destination
///   moves it (animated), pressing on another piece selects that one, pressing elsewhere clears
///   the selection;
/// - dragging the selected piece: releasing on its own square clears the selection, on a legal
///   destination moves the piece, elsewhere drops it and keeps it selected.
/// Every other event does nothing.
pub open spec fn spec_selection_action(state: SelectionState, event: MouseSelectionEvent, board: BoardState) -> SelectionStateAction {
    match state {
        SelectionState::Unselected => match event {
            MouseSelectionEvent::MouseDown(square) => if board.spec_pieces()[square.idx()] is Some {
                SelectionStateAction::StartSelectingDragging(square)
            } else {
                SelectionStateAction::NoAction
            },
            MouseSelectionEvent::MouseUp(_) => SelectionStateAction::NoAction,
        },
        SelectionState::SelectingDragging(selecting_sq) => match event {
            MouseSelectionEvent::MouseDown(_) => SelectionStateAction::NoAction,
            MouseSelectionEvent::MouseUp(square) => if board.spec_move_is_valid(selecting_sq, square) {
                SelectionStateAction::Move { from_sq: selecting_sq, to_sq: square, animate: false }
            } else {
                SelectionStateAction::DropSelect(selecting_sq)
            },
        },
        SelectionState::Selected(selected_sq) => match event {
            MouseSelectionEvent::MouseDown(square) => if square == selected_sq {
                SelectionStateAction::StartSelectedDragging(selected_sq)
            } else if board.spec_move_is_valid(selected_sq, square) {
                SelectionStateAction::Move { from_sq: selected_sq, to_sq: square, animate: true }
            } else if board.spec_pieces()[square.idx()] is Some {
                SelectionStateAction::ChangeSelection(square)
            } else {
                SelectionStateAction::Unselect(selected_sq)
            },
            MouseSelectionEvent::MouseUp(_) => SelectionStateAction::NoAction,
        },
        SelectionState::SelectedDragging(selected_sq) => match event {
            MouseSelectionEvent::MouseDown(_) => SelectionStateAction::NoAction,
            MouseSelectionEvent::MouseUp(square) => if square == selected_sq {
                SelectionStateAction::Unselect(selected_sq)
            } else if board.spec_move_is_valid(selected_sq, square) {
                SelectionStateAction::Move { from_sq: selected_sq, to_sq: square, animate: false }
            } else {
                SelectionStateAction::DropSelect(selected_sq)
            },
        },
    }
}

/// The action that a mouse event causes in the given selection state.
pub fn selection_action(state: SelectionState, event: MouseSelectionEvent, board_state: &BoardState) -> (action: SelectionStateAction)
    requires
        board_state.wf(),
        spec_event_possible(state, event),
    ensures
        action == spec_selection_action(state, event, *board_state),
        state matches SelectionState::Selected(s) ==> (event matches MouseSelectionEvent::MouseDown(t) ==> (t != s
            && board_state.spec_move_is_valid(s, t) ==> action == (SelectionStateAction::Move {
            from_sq: s,
            to_sq: t,
            animate: true,
        }))),
{
    match state {
        SelectionState::Unselected => match event {
            MouseSelectionEvent::MouseDown(square) => if board_state.has_piece_at(square) {
                SelectionStateAction::StartSelectingDragging(square)
            } else {
                SelectionStateAction::NoAction
            },
            MouseSelectionEvent::MouseUp(_) => SelectionStateAction::NoAction,
        },
        SelectionState::SelectingDragging(selecting_sq) => match event {
            MouseSelectionEvent::MouseDown(_) => SelectionStateAction::NoAction,
            MouseSelectionEvent::MouseUp(square) => if board_state.move_is_valid(selecting_sq, square) {
                SelectionStateAction::Move { from_sq: selecting_sq, to_sq: square, animate: false }
            } else {
                SelectionStateAction::DropSelect(selecting_sq)
            },
        },
        SelectionState::Selected(selected_sq) => match event {
            MouseSelectionEvent::MouseDown(square) => if square == selected_sq {
                SelectionStateAction::StartSelectedDragging(selected_sq)
            } else if board_state.move_is_valid(selected_sq, square) {
                SelectionStateAction::Move { from_sq: selected_sq, to_sq: square, animate: true }
            } else if board_state.has_piece_at(square) {
                SelectionStateAction::ChangeSelection(square)
            } else {
                SelectionStateAction::Unselect(selected_sq)
            },
            MouseSelectionEvent::MouseUp(_) => SelectionStateAction::NoAction,
        },
        SelectionState::SelectedDragging(selected_sq) => match event {
            MouseSelectionEvent::MouseDown(_) => SelectionStateAction::NoAction,
            MouseSelectionEvent::MouseUp(square) => if square == selected_sq {
                SelectionStateAction::Unselect(selected_sq)
            } else if board_state.move_is_valid(selected_sq, square) {
                SelectionStateAction::Move { from_sq: selected_sq, to_sq: square, animate: false }
            } else {
                SelectionStateAction::DropSelect(selected_sq)
            },
        },
    }
}

/// The selection state after an action.
pub open spec fn spec_next_selection_state(state: SelectionState, action: SelectionStateAction) -> SelectionState {
    match action {
        SelectionStateAction::NoAction => state,
        SelectionStateAction::ChangeSelection(sq) => SelectionState::SelectingDragging(sq),
        SelectionStateAction::DropSelect(sq) => SelectionState::Selected(sq),
        SelectionStateAction::Move { .. } => SelectionState::Unselected,
        SelectionStateAction::StartSelectedDragging(sq) => SelectionState::SelectedDragging(sq),
        SelectionStateAction::StartSelectingDragging(sq) => SelectionState::SelectingDragging(sq),
        SelectionStateAction::Unselect(_) => SelectionState::Unselected,
    }
}

/// A request to move a piece, with the kind a pawn is promoted to and whether to animate it.
#[derive(Clone, Copy, Debug, PartialEq, Eq, Structural)]
pub struct MovePiece {
    pub from_sq: Square,
    pub to_sq: Square,
    pub promotion: Option<PieceType>,
    pub animate: bool,
}

impl MovePiece {
    pub fn new(from_sq: Square, to_sq: Square, promotion: Option<PieceType>, animate: bool) -> (m: MovePiece)
        ensures
            m == (MovePiece { from_sq, to_sq, promotion, animate }),
    {
        MovePiece { from_sq, to_sq, promotion, animate }
    }
}

/// A change of the highlighted tiles and move hints.
#[derive(Clone, Debug)]
pub enum SelectionEvent {
    /// Highlight this tile and show exactly these hints.
    UpdateSelection { highlight: Entity, hints: Vec<Entity> },
    /// Clear the selected tile and the hints.
    Unselect,
    /// Mark the squares of the last move.
    UpdateLastMove(Square, Square),
    /// Clear the marks of the last move.
    UnsetLastMove,
    /// Clear the selection, the hints and the marks of the last move.
    UnsetAll,
}

/// What the user interface must do after a selection action.
pub struct SelectionEffects {
    /// Start dragging this piece entity, which stood on this square.
    pub start_drag: Option<(Entity, Square)>,
    /// Stop dragging this piece entity and put it back on its square.
    pub end_drag: Option<Entity>,
    /// Change the highlights and hints.
    pub selection_event: Option<SelectionEvent>,
    /// Move this piece entity.
    pub move_piece: Option<(Entity, MovePiece)>,
}

/// Every square has its highlight and hint entities.
pub open spec fn spec_ui_ready(board: BoardState) -> bool {
    forall|i: int| 0 <= i < 64 ==> (#[trigger] board.spec_highlights()[i]) is Some && board.spec_tile_hints()[i] is Some
}

/// The entities that the action of a mouse event reads are in place: when the action selects
/// the piece on a square, that square's highlight and the hints of every square its legal moves
/// reach. Other actions read no highlight or hint.
pub open spec fn spec_ui_ready_for(state: SelectionState, event: MouseSelectionEvent, board: BoardState) -> bool {
    match spec_selection_action(state, event, board) {
        SelectionStateAction::ChangeSelection(sq) | SelectionStateAction::StartSelectingDragging(sq) => {
            &&& board.spec_highlights()[sq.idx()] is Some
            &&& board.spec_hints_cover_moves_from(sq)
        },
        _ => true,
    }
}

/// When every square has its highlight and hint entities, every mouse event finds the entities
/// it reads.
pub proof fn lemma_ui_ready_suffices(state: SelectionState, event: MouseSelectionEvent, board: BoardState)
    requires
        spec_ui_ready(board),
    ensures
        spec_ui_ready_for(state, event, board),
{
    broadcast use crate::square::lemma_square_idx_range;

    match spec_selection_action(state, event, board) {
        SelectionStateAction::ChangeSelection(sq) | SelectionStateAction::StartSelectingDragging(sq) => {
            assert(board.spec_highlights()[sq.idx()] is Some);
            assert forall|k: int|
                0 <= k < board.spec_position().legal_moves@.len() && (#[trigger] board.spec_position().legal_moves@[k]).from
                    == sq implies board.spec_tile_hints()[board.spec_position().legal_moves@[k].to.idx()] is Some by {
                let i = board.spec_position().legal_moves@[k].to.idx();
                assert(board.spec_highlights()[i] is Some);
            }
        },
        _ => {},
    }
}

/// The square of the selection holds a piece entity.
pub open spec fn spec_selection_consistent(state: SelectionState, board: BoardState) -> bool {
    state.spec_square() matches Some(sq) ==> board.spec_pieces()[sq.idx()] is Some
}

/// The highlight-and-hints update for selecting the piece on `sq`.
pub open spec fn spec_update_selection(e: SelectionEvent, board: BoardState, sq: Square) -> bool {
    e matches SelectionEvent::UpdateSelection { highlight, hints } && Some(highlight) == board.spec_highlights()[sq.idx()]
        && hints@ == spec_valid_move_hints(board.spec_position(), board.spec_tile_hints(), sq)
}

/// The effects of an action, as the user interface must carry them out.
pub open spec fn spec_effects(fx: SelectionEffects, action: SelectionStateAction, board: BoardState) -> bool {
    let pieces = board.spec_pieces();
    match action {
        SelectionStateAction::NoAction => fx.start_drag is None && fx.end_drag is None && fx.selection_event is None
            && fx.move_piece is None,
        SelectionStateAction::ChangeSelection(sq) | SelectionStateAction::StartSelectingDragging(sq) =>
            fx.start_drag == Some((pieces[sq.idx()].unwrap(), sq)) && fx.end_drag is None
                && (fx.selection_event matches Some(e) && spec_update_selection(e, board, sq))
                && fx.move_piece is None,
        SelectionStateAction::DropSelect(sq) => fx.start_drag is None && fx.end_drag == Some(pieces[sq.idx()].unwrap())
            && fx.selection_event is None && fx.move_piece is None,
        SelectionStateAction::Move { from_sq, to_sq, animate } => fx.start_drag is None && fx.end_drag is None
            && fx.selection_event is None && fx.move_piece == Some(
            (pieces[from_sq.idx()].unwrap(), MovePiece { from_sq, to_sq, promotion: None, animate }),
        ),
        SelectionStateAction::StartSelectedDragging(sq) => fx.start_drag == Some((pieces[sq.idx()].unwrap(), sq))
            && fx.end_drag is None && fx.selection_event is None && fx.move_piece is None,
        SelectionStateAction::Unselect(sq) => fx.start_drag is None && fx.end_drag == Some(pieces[sq.idx()].unwrap())
            && (fx.selection_event matches Some(SelectionEvent::Unselect)) && fx.move_piece is None,
    }
}

/// Handles a mouse event: decides the action, updates the selection state and returns what the
/// user interface must do.
pub fn handle_mouse_selection_event(
    selection_state: &mut SelectionState,
    event: MouseSelectionEvent,
    board_state: &BoardState,
) -> (res: (SelectionStateAction, SelectionEffects))
    requires
        board_state.wf(),
        spec_ui_ready_for(*old(selection_state), event, *board_state),
        spec_selection_consistent(*old(selection_state), *board_state),
        spec_event_possible(*old(selection_state), event),
    ensures
        res.0 == spec_selection_action(*old(selection_state), event, *board_state),
        *final(selection_state) == spec_next_selection_state(*old(selection_state), res.0),
        spec_effects(res.1, res.0, *board_state),
        spec_selection_consistent(*final(selection_state), *board_state),
{
    broadcast use crate::square::lemma_square_idx_range;

    let action = selection_action(*selection_state, event, board_state);
    let none = SelectionEffects { start_drag: None, end_drag: None, selection_event: None, move_piece: None };
    let effects = match action {
        SelectionStateAction::NoAction => none,
        SelectionStateAction::ChangeSelection(to_sq) => {
            let piece = board_state.piece(to_sq);
            let hl_tile = board_state.highlight(to_sq);
            let hints = board_state.calculate_valid_moves(to_sq);
            *selection_state = SelectionState::SelectingDragging(to_sq);
            SelectionEffects {
                start_drag: Some((piece, to_sq)),
                end_drag: None,
                selection_event: Some(SelectionEvent::UpdateSelection { highlight: hl_tile, hints }),
                move_piece: None,
            }
        },
        SelectionStateAction::DropSelect(square) => {
            let piece = board_state.piece(square);
            *selection_state = SelectionState::Selected(square);
            SelectionEffects { start_drag: None, end_drag: Some(piece), selection_event: None, move_piece: None }
        },
        SelectionStateAction::Move { from_sq, to_sq, animate } => {
            let piece = board_state.piece(from_sq);
            *selection_state = SelectionState::Unselected;
            SelectionEffects {
                start_drag: None,
                end_drag: None,
                selection_event: None,
                move_piece: Some((piece, MovePiece::new(from_sq, to_sq, None, animate))),
            }
        },
        SelectionStateAction::StartSelectedDragging(square) => {
            let piece = board_state.piece(square);
            *selection_state = SelectionState::SelectedDragging(square);
            SelectionEffects { start_drag: Some((piece, square)), end_drag: None, selection_event: None, move_piece: None }
        },
        SelectionStateAction::StartSelectingDragging(square) => {
            let piece = board_state.piece(square);
            let hl_tile = board_state.highlight(square);
            let hints = board_state.calculate_valid_moves(square);
            *selection_state = SelectionState::SelectingDragging(square);
            SelectionEffects {
                start_drag: Some((piece, square)),
                end_drag: None,
                selection_event: Some(SelectionEvent::UpdateSelection { highlight: hl_tile, hints }),
                move_piece: None,
            }
        },
        SelectionStateAction::Unselect(square) => {
            let piece = board_state.piece(square);
            *selection_state = SelectionState::Unselected;
            SelectionEffects {
                start_drag: None,
                end_drag: Some(piece),
                selection_event: Some(SelectionEvent::Unselect),
                move_piece: None,
            }
        },
    };
    (action, effects)
}


/// A legal move is made whenever the mouse asks for it, before any other reading of the click:
/// with a piece selected on `s`, pressing on another square `t` that a legal move from `s`
/// reaches moves the piece there (animated), whether or not `t` holds a piece, so clicking a
/// piece that can be taken takes it; releasing a dragged piece on such a square moves it there
/// (not animated).
pub proof fn lemma_legal_destination_moves(s: Square, t: Square, board: BoardState)
    requires
        t != s,
        exists|k: int|
            0 <= k < board.spec_position().legal_moves@.len() && (#[trigger] board.spec_position().legal_moves@[k]).from
                == s && board.spec_position().legal_moves@[k].to == t,
    ensures
        spec_selection_action(SelectionState::Selected(s), MouseSelectionEvent::MouseDown(t), board)
            == (SelectionStateAction::Move { from_sq: s, to_sq: t, animate: true }),
        spec_selection_action(SelectionState::SelectedDragging(s), MouseSelectionEvent::MouseUp(t), board)
            == (SelectionStateAction::Move { from_sq: s, to_sq: t, animate: false }),
        spec_selection_action(SelectionState::SelectingDragging(s), MouseSelectionEvent::MouseUp(t), board)
            == (SelectionStateAction::Move { from_sq: s, to_sq: t, animate: false }),
{
    assert(board.spec_move_is_valid(s, t));
}

/// A click that no legal move explains changes the selection instead: with a piece selected on
/// `s`, pressing on another square `t` that no legal move from `s` reaches selects the piece on
/// `t` when there is one, and clears the selection otherwise.
pub proof fn lemma_other_press_reselects(s: Square, t: Square, board: BoardState)
    requires
        t != s,
        forall|k: int|
            0 <= k < board.spec_position().legal_moves@.len() && (#[trigger] board.spec_position().legal_moves@[k]).from
                == s ==> board.spec_position().legal_moves@[k].to != t,
    ensures
        spec_selection_action(SelectionState::Selected(s), MouseSelectionEvent::MouseDown(t), board) == (if board.spec_pieces()[t.idx()] is Some {
            SelectionStateAction::ChangeSelection(t)
        } else {
            SelectionStateAction::Unselect(s)
        }),
{
}
} // verus!
