use std::str::FromStr;

use gambit::board_state::{BoardState, Entity, GameStatus, TileHints};
use gambit::board_ui::{pieces_to_spawn, tile_layout, TileShade};
use gambit::end_game::{game_over, icon_offsets, EndGameIcon};
use gambit::game::MenuState;
use gambit::indicators::Indicators;
use gambit::moves::update_board_state;
use gambit::piece::{PieceColor, PieceType};
use gambit::promotion::{
    promoter_layout, promotion_click_handler, promotion_result_handler, PromotingPiece, PromotionOutcome,
    PromotionResult,
};
use gambit::selection::{MovePiece, SelectionEvent};
use gambit::square::Square;

fn ready_state(fen: &str) -> BoardState {
    let board = chess::Board::from_str(fen).unwrap();
    let mut state = BoardState::new(board, 0, 1);
    for i in 0..64u8 {
        let sq = Square::from_index(i);
        let n = i as Entity;
        state.set_tile(sq, 1000 + n);
        state.set_highlight(sq, 2000 + n);
        state.set_tile_hints(sq, TileHints { move_entity: 3000 + n, capture_entity: 4000 + n });
        if state.get_piece_meta(sq).is_some() {
            state.set_piece(sq, 5000 + n);
        }
    }
    state
}

#[test]
fn tile_shades_and_labels() {
    let a1 = tile_layout(Square::A1);
    assert_eq!(a1.shade, TileShade::Dark);
    assert_eq!(a1.label_shade, TileShade::Light);
    assert_eq!((a1.file_label, a1.rank_label), (Some('a'), Some('1')));
    let h1 = tile_layout(Square::H1);
    assert_eq!(h1.shade, TileShade::Light);
    assert_eq!((h1.file_label, h1.rank_label), (Some('h'), None));
    let a8 = tile_layout(Square::A8);
    assert_eq!(a8.shade, TileShade::Light);
    assert_eq!((a8.file_label, a8.rank_label), (None, Some('8')));
    let e4 = tile_layout(Square::E4);
    assert_eq!(e4.shade, TileShade::Light);
    assert_eq!((e4.file_label, e4.rank_label), (None, None));
}

#[test]
fn pieces_of_the_starting_position() {
    let state = BoardState::new(chess::Board::default(), 0, 1);
    let sprites = pieces_to_spawn(state.position_ref());
    assert_eq!(sprites.len(), 32);
    assert_eq!(sprites[0].square, Square::A1);
    assert_eq!(sprites[0].image, "images/pieces/white-rook.png");
    assert_eq!(sprites[4].image, "images/pieces/white-king.png");
    assert_eq!(sprites[31].square, Square::H8);
    assert_eq!(sprites[31].image, "images/pieces/black-rook.png");
}

#[test]
fn end_game_icon_offsets() {
    assert_eq!(icon_offsets(Square::H8), (3, 57));
    assert_eq!(icon_offsets(Square::A1), (-14, 74));
    assert_eq!(icon_offsets(Square::E8), (3, 74));
    assert_eq!(icon_offsets(Square::H2), (-14, 57));
    assert_eq!(EndGameIcon::Winner.asset_path(), "images/checkmate/winner.png");
    assert_eq!(EndGameIcon::DrawWhite.asset_path(), "images/draw/draw-white.png");
    assert_eq!(EndGameIcon::all().len(), 5);
}

#[test]
fn checkmate_icons_on_the_kings() {
    let mut state = ready_state("rnbqkbnr/pppp1ppp/8/4p3/6P1/5P2/PPPPP2P/RNBQKBNR b KQkq - 0 2");
    update_board_state(&mut state, Square::D8, Square::H4, PieceColor::BLACK, PieceType::QUEEN, None, false);
    assert_eq!(state.status(), GameStatus::GameOverCheckmate);
    let (icons, next) = game_over(&state);
    assert_eq!(next, MenuState::DoGameOver);
    assert_eq!(icons.len(), 2);
    assert_eq!(icons[0].icon, EndGameIcon::LoserWhite);
    assert_eq!(icons[0].square, Square::E1);
    assert_eq!(icons[0].tile, 1000 + Square::E1.to_index() as Entity);
    assert_eq!((icons[0].top_percent, icons[0].left_percent), (-14, 74));
    assert_eq!(icons[1].icon, EndGameIcon::Winner);
    assert_eq!(icons[1].square, Square::E8);
    assert_eq!((icons[1].top_percent, icons[1].left_percent), (3, 74));
}

#[test]
fn ongoing_game_has_no_icons() {
    let state = ready_state("4k3/8/8/8/8/8/8/4K3 w - - 0 1");
    let (icons, next) = game_over(&state);
    assert!(icons.is_empty());
    assert_eq!(next, MenuState::DoGameOver);
}

#[test]
fn stalemate_shows_draw_icons() {
    let mut state = ready_state("7k/5Q2/8/8/8/8/8/K7 w - - 0 1");
    update_board_state(&mut state, Square::F7, Square::G6, PieceColor::WHITE, PieceType::QUEEN, None, false);
    assert_eq!(state.status(), GameStatus::GameOverStalemate);
    let (icons, _) = game_over(&state);
    assert_eq!(icons.len(), 2);
    assert_eq!((icons[0].icon, icons[0].square), (EndGameIcon::DrawBlack, Square::H8));
    assert_eq!((icons[0].top_percent, icons[0].left_percent), (3, 57));
    assert_eq!((icons[1].icon, icons[1].square), (EndGameIcon::DrawWhite, Square::A1));
}

#[test]
fn promoter_buttons() {
    let white = promoter_layout(PieceColor::WHITE);
    assert!(!white.reversed && white.anchored_top);
    let kinds: Vec<PieceType> = white.buttons.iter().map(|b| b.0).collect();
    assert_eq!(kinds, vec![PieceType::QUEEN, PieceType::KNIGHT, PieceType::ROOK, PieceType::BISHOP]);
    assert_eq!(white.buttons[0].1, "images/pieces/white-queen.png");
    let black = promoter_layout(PieceColor::BLACK);
    assert!(black.reversed && !black.anchored_top);
    assert_eq!(black.buttons[3].1, "images/pieces/black-bishop.png");
}

#[test]
fn promoter_clicks() {
    assert_eq!(promotion_click_handler(Some(PieceType::ROOK), true, true), Some(PromotionResult::Promote(PieceType::ROOK)));
    assert_eq!(promotion_click_handler(None, true, false), Some(PromotionResult::Cancel));
    assert_eq!(promotion_click_handler(None, false, true), Some(PromotionResult::Cancel));
    assert_eq!(promotion_click_handler(None, false, false), None);
}

#[test]
fn promoter_results() {
    let state = ready_state("4k3/P7/8/8/8/8/8/4K3 w - - 0 1");
    let waiting = Some((77, PromotingPiece::new(Square::A7, Square::A8)));
    assert_eq!(promotion_result_handler(None, waiting, &state), PromotionOutcome::Nothing);
    assert_eq!(promotion_result_handler(Some(PromotionResult::Cancel), None, &state), PromotionOutcome::Ignored);
    assert_eq!(
        promotion_result_handler(Some(PromotionResult::Promote(PieceType::KNIGHT)), waiting, &state),
        PromotionOutcome::Promote {
            piece: 77,
            move_piece: MovePiece::new(Square::A7, Square::A8, Some(PieceType::KNIGHT), false)
        }
    );
    assert_eq!(
        promotion_result_handler(Some(PromotionResult::Cancel), waiting, &state),
        PromotionOutcome::Cancel { piece: 77, tile: 1000 + Square::A7.to_index() as Entity }
    );
}

#[test]
fn indicators_follow_selection_events() {
    let state = ready_state("rnbqkbnr/pppppppp/8/8/8/8/PPPPPPPP/RNBQKBNR w KQkq - 0 1");
    let mut ind = Indicators::new();
    ind.handle_selection_event(&SelectionEvent::UpdateSelection { highlight: 2011, hints: vec![3019, 3027] }, &state);
    assert!(ind.is_selected(2011) && ind.is_showing(2011));
    assert!(ind.is_hinted(3019) && ind.is_showing(3027));
    ind.handle_selection_event(&SelectionEvent::UpdateLastMove(Square::D2, Square::D4), &state);
    assert!(ind.is_last_move(2011) && ind.is_last_move(2027));
    // The selected highlight also marks the last move, so clearing the selection keeps it shown.
    ind.handle_selection_event(&SelectionEvent::Unselect, &state);
    assert!(!ind.is_selected(2011) && ind.is_showing(2011));
    assert!(!ind.is_hinted(3019) && !ind.is_showing(3019));
    ind.handle_selection_event(&SelectionEvent::UnsetLastMove, &state);
    assert!(!ind.is_showing(2011) && !ind.is_showing(2027));
    ind.handle_selection_event(&SelectionEvent::UpdateSelection { highlight: 2001, hints: vec![] }, &state);
    ind.handle_selection_event(&SelectionEvent::UnsetAll, &state);
    assert!(!ind.is_showing(2001) && !ind.is_selected(2001));
}
