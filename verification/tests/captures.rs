use std::str::FromStr;

use gambit::board_state::{BoardState, Entity};
use gambit::captures::{
    capture_update, load_capture_state, CapState, CapStateDiff, CapStateUpdate, CaptureState, PLACEHOLDER_ENTITY,
};
use gambit::piece::{PieceColor, PieceMeta, PieceType};

#[test]
fn a_capture_counts_for_the_other_side() {
    let u = capture_update(PieceMeta::new(PieceColor::BLACK, PieceType::KNIGHT));
    assert_eq!(u, CapStateUpdate::new(PieceColor::WHITE, PieceType::KNIGHT, CapStateDiff::Increment));
}

#[test]
fn cap_state_wraps_after_last_image() {
    let mut c = CapState { image_handles: vec![None, Some("one"), Some("two")], image_entity: 7, count: 0 };
    c.patch(CapStateDiff::Increment);
    assert_eq!(c.count, 1);
    assert_eq!(c.handle(), Some("one"));
    c.patch(CapStateDiff::Increment);
    c.patch(CapStateDiff::Increment);
    assert_eq!(c.count, 0);
    assert_eq!(c.patch(CapStateDiff::SetCount(2)), Some("two"));
    assert_eq!(c.handle(), Some("two"));
    assert_eq!(c.patch(CapStateDiff::Increment), None);
    let d = CapState::default();
    assert_eq!((d.count, d.image_entity, d.image_handles.len()), (0, PLACEHOLDER_ENTITY, 0));
}

#[test]
fn scores_and_advantage() {
    let mut state = CaptureState::with_images();
    assert_eq!(state.get_advantage(), None);
    let ui = state.apply_update(CapStateUpdate::new(PieceColor::WHITE, PieceType::QUEEN, CapStateDiff::Increment));
    assert!(ui.visible);
    assert_eq!(ui.image, Some("images/captures/black-queen.png"));
    assert_eq!(ui.advantage, Some((PieceColor::WHITE, 9)));
    assert_eq!(state.white.score, 9);
    let ui = state.apply_update(CapStateUpdate::new(PieceColor::BLACK, PieceType::ROOK, CapStateDiff::SetCount(2)));
    assert_eq!(ui.image, Some("images/captures/white-rooks-2.png"));
    assert_eq!(state.black.score, 10);
    assert_eq!(ui.advantage, Some((PieceColor::BLACK, 1)));
    assert_eq!(state.get(PieceColor::BLACK, PieceType::ROOK).count, 2);
}

#[test]
fn reset_counts_returns_entities_in_order() {
    let mut state = CaptureState::with_images();
    for (i, c) in state.white.piece_captures.iter_mut().enumerate() {
        c.image_entity = 100 + i as Entity;
    }
    for (i, c) in state.black.piece_captures.iter_mut().enumerate() {
        c.image_entity = 200 + i as Entity;
    }
    state.patch(CapStateUpdate::new(PieceColor::WHITE, PieceType::PAWN, CapStateDiff::SetCount(3)));
    let entities = state.reset_counts();
    assert_eq!(entities, vec![100, 101, 102, 103, 104, 200, 201, 202, 203, 204]);
    assert!(state.white.piece_captures.iter().all(|c| c.count == 0));
}

#[test]
fn captures_are_read_from_the_board() {
    let board = chess::Board::from_str("4k3/8/8/8/8/8/PPPP4/RN2K3 w - - 0 30").unwrap();
    let state = BoardState::new(board, 0, 30);
    let updates = load_capture_state(&state);
    assert_eq!(updates.len(), 10);
    // White has captured every black piece but the king.
    assert_eq!(updates[0], CapStateUpdate::new(PieceColor::WHITE, PieceType::PAWN, CapStateDiff::SetCount(8)));
    assert_eq!(updates[4], CapStateUpdate::new(PieceColor::WHITE, PieceType::QUEEN, CapStateDiff::SetCount(1)));
    // Black has captured four white pawns, a knight, two bishops, a rook and the queen.
    assert_eq!(updates[5], CapStateUpdate::new(PieceColor::BLACK, PieceType::PAWN, CapStateDiff::SetCount(4)));
    assert_eq!(updates[6], CapStateUpdate::new(PieceColor::BLACK, PieceType::KNIGHT, CapStateDiff::SetCount(1)));
    assert_eq!(updates[7], CapStateUpdate::new(PieceColor::BLACK, PieceType::BISHOP, CapStateDiff::SetCount(2)));
    assert_eq!(updates[8], CapStateUpdate::new(PieceColor::BLACK, PieceType::ROOK, CapStateDiff::SetCount(1)));
    assert_eq!(updates[9], CapStateUpdate::new(PieceColor::BLACK, PieceType::QUEEN, CapStateDiff::SetCount(1)));
}

#[test]
fn image_entities_are_recorded_in_kind_order() {
    let mut state = CaptureState::with_images();
    state.set_image_entities(PieceColor::BLACK, &vec![11, 12, 13, 14, 15]);
    let recorded: Vec<Entity> = state.black.piece_captures.iter().map(|c| c.image_entity).collect();
    assert_eq!(recorded, vec![11, 12, 13, 14, 15]);
    assert!(state.white.piece_captures.iter().all(|c| c.image_entity == PLACEHOLDER_ENTITY));
    assert_eq!(state.get(PieceColor::BLACK, PieceType::ROOK).image_entity, 14);
}
