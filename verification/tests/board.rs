use std::str::FromStr;

use gambit::board_state::{BoardState, Entity, GameStatus, TileHints};
use gambit::game::{
    board_parse_safe, board_state_from_cli_checked, fen_counters, init_menu_state_from_cli, load_game_on_startup,
    load_game_on_startup_checked, parse_fen, ChessError, MenuState,
};
use gambit::moves::{plan_move, update_board_state, MovePlan, PlayGameAudio};
use gambit::piece::{PieceColor, PieceMeta, PieceType};
use gambit::position::{CastleRights, Position};
use gambit::selection::MovePiece;
use gambit::square::Square;
use gambit::text::{parse_unsigned_chars, split_chars, str_chars};

fn board_from(fen: &str) -> chess::Board {
    chess::Board::from_str(fen).expect("valid FEN")
}

/// A board state with every tile, highlight, hint and piece entity in place.
fn ready_state(fen: &str, half: u8, full: u16) -> BoardState {
    let mut state = BoardState::new(board_from(fen), half, full);
    for i in 0..64u8 {
        let sq = Square::from_index(i);
        let n = i as Entity;
        state.set_tile(sq, 1000 + n);
        state.set_highlight(sq, 2000 + n);
        state.set_tile_hints(sq, TileHints { move_entity: 3000 + n, capture_entity: 4000 + n });
        if state.get_piece_meta(sq).is_some() {
            state.set_piece(sq, 5000 + n);
        }
    }
    state
}

const START_FEN: &str = "rnbqkbnr/pppppppp/8/8/8/8/PPPPPPPP/RNBQKBNR w KQkq - 0 1";

#[test]
fn square_names_read_back() {
    for i in 0..64u8 {
        let sq = Square::from_index(i);
        assert_eq!(Square::from_chars(&sq.name()), Some(sq));
        assert_eq!(sq.to_index(), i);
    }
    assert_eq!(Square::from_chars(&['e', '4']), Some(Square::E4));
    assert_eq!(Square::from_chars(&['i', '4']), None);
    assert_eq!(Square::from_chars(&['e']), None);
    assert_eq!(Square::E4.name(), vec!['e', '4']);
}

#[test]
fn square_coordinates() {
    assert_eq!(Square::from_coords(3, 4), Square::E4);
    assert_eq!(Square::E4.get_rank(), 3);
    assert_eq!(Square::E4.get_file(), 4);
    assert_eq!(Square::E2.forward(PieceColor::WHITE), Some(Square::E3));
    assert_eq!(Square::E2.forward(PieceColor::BLACK), Some(Square::E1));
    assert_eq!(Square::E1.backward(PieceColor::WHITE), None);
    assert_eq!(Square::H8.file_char(), 'h');
    assert_eq!(Square::H8.rank_char(), '8');
}

#[test]
fn colors_and_kinds() {
    assert_eq!(PieceColor::WHITE.not(), PieceColor::BLACK);
    assert_eq!(PieceColor::BLACK.not().not(), PieceColor::BLACK);
    assert_eq!(PieceColor::WHITE.to_my_backrank(), 0);
    assert_eq!(PieceColor::WHITE.to_their_backrank(), 7);
    assert_eq!(PieceType::QUEEN.value(), 9);
    assert_eq!(PieceType::PAWN.value(), 1);
    assert_eq!(PieceType::KNIGHT.num_pieces(), 2);
    assert_eq!(PieceType::PAWN.num_pieces(), 8);
    assert_eq!(PieceMeta::new(PieceColor::WHITE, PieceType::QUEEN).asset_path(), "images/pieces/white-queen.png");
    assert_eq!(PieceMeta::new(PieceColor::BLACK, PieceType::KNIGHT).asset_path(), "images/pieces/black-knight.png");
}

#[test]
fn castle_rights_flags() {
    assert!(CastleRights::Both.has_kingside());
    assert!(CastleRights::Both.has_queenside());
    assert!(!CastleRights::QueenSide.has_kingside());
    assert!(!CastleRights::NoRights.has_queenside());
}

#[test]
fn text_helpers() {
    assert_eq!(parse_unsigned_chars(&str_chars("42"), 255), Some(42));
    assert_eq!(parse_unsigned_chars(&str_chars("+7"), 255), Some(7));
    assert_eq!(parse_unsigned_chars(&str_chars("256"), 255), None);
    assert_eq!(parse_unsigned_chars(&str_chars("-1"), 255), None);
    assert_eq!(parse_unsigned_chars(&str_chars(""), 255), None);
    assert_eq!(parse_unsigned_chars(&str_chars("+"), 255), None);
    let parts = split_chars(&str_chars("a  b"), ' ');
    assert_eq!(parts, vec![vec!['a'], vec![], vec!['b']]);
}

#[test]
fn fen_counters_are_read() {
    assert_eq!(fen_counters(START_FEN), Some((0, 1)));
    assert_eq!(fen_counters("8/8/8/8/8/8/8/8 w - - 12 40"), Some((12, 40)));
    assert_eq!(fen_counters("8/8/8/8/8/8/8/8 w - -"), None);
    assert_eq!(fen_counters("8/8/8/8/8/8/8/8 w - - 300 1"), None);
}

#[test]
fn parse_fen_reports_errors() {
    let (_, h, f) = parse_fen(START_FEN).expect("starting position");
    assert_eq!((h, f), (0, 1));
    match parse_fen("not a fen") {
        Err(ChessError::InvalidFen { fen }) => assert_eq!(fen, "not a fen"),
        other => panic!("unexpected {other:?}"),
    }
    match parse_fen("8/8/8/8/8/8/8/Kk6 w - - 0 1") {
        Err(ChessError::InvalidBoard) => {},
        other => panic!("unexpected {other:?}"),
    }
    match parse_fen("rnbqkbnr/pppppppp/8/8/8/8/PPPPPPPP/RNBQKBNR w KQkq -") {
        Err(ChessError::InvalidFen { fen }) => {
            assert_eq!(fen, "rnbqkbnr/pppppppp/8/8/8/8/PPPPPPPP/RNBQKBNR w KQkq -")
        },
        other => panic!("unexpected {other:?}"),
    }
}

#[test]
fn startup_loads_menu_or_game() {
    let menu = load_game_on_startup(None).expect("menu");
    assert_eq!(menu.menu_state, MenuState::Menu);
    assert_eq!((menu.half_move_clock, menu.full_move_count), (0, 1));
    let game = load_game_on_startup(Some("8/8/8/8/8/8/8/K1k5 w - - 3 9")).expect("game");
    assert_eq!(game.menu_state, MenuState::Game);
    assert_eq!((game.half_move_clock, game.full_move_count), (3, 9));
    assert!(load_game_on_startup(Some("garbage")).is_err());
    assert_eq!(init_menu_state_from_cli(Some("x")), MenuState::Game);
    assert_eq!(init_menu_state_from_cli(None), MenuState::Menu);
}

#[test]
fn board_state_fen_carries_counters() {
    let state = BoardState::new(board_from(START_FEN), 7, 21);
    assert_eq!(state.fen(), "rnbqkbnr/pppppppp/8/8/8/8/PPPPPPPP/RNBQKBNR w KQkq - 7 21");
    assert_eq!(state.side_to_move(), PieceColor::WHITE);
    assert_eq!(state.status(), GameStatus::Ongoing);
    assert!(!state.is_game_over());
    assert_eq!(state.king_square(PieceColor::BLACK), Square::E8);
    assert_eq!(state.my_castle_rights(), CastleRights::Both);
}

#[test]
fn valid_moves_and_hints() {
    let state = ready_state(START_FEN, 0, 1);
    assert!(state.move_is_valid(Square::G1, Square::F3));
    assert!(!state.move_is_valid(Square::G1, Square::G3));
    let hints = state.calculate_valid_moves(Square::G1);
    let mut expected = vec![3000 + Square::F3.to_index() as Entity, 3000 + Square::H3.to_index() as Entity];
    let mut actual = hints.clone();
    actual.sort();
    expected.sort();
    assert_eq!(actual, expected);
    // A capture shows the capture hint.
    let capture = ready_state("4k3/8/8/3p4/4P3/8/8/4K3 w - - 0 1", 0, 1);
    let hints = capture.calculate_valid_moves(Square::E4);
    assert!(hints.contains(&(4000 + Square::D5.to_index() as Entity)));
    assert!(hints.contains(&(3000 + Square::E5.to_index() as Entity)));
}

#[test]
fn moving_a_piece_entity_and_capturing() {
    let mut state = ready_state("4k3/8/8/3p4/4P3/8/8/4K3 w - - 0 1", 0, 1);
    let pawn = state.piece(Square::E4);
    let taken = state.update_piece(PieceColor::WHITE, Square::E4, Square::D5);
    assert_eq!(taken, Some(5000 + Square::D5.to_index() as Entity));
    assert_eq!(state.get_piece(Square::D5), Some(pawn));
    assert_eq!(state.get_piece(Square::E4), None);
}

#[test]
fn en_passant_takes_the_pawn_behind() {
    let mut state = ready_state("4k3/8/8/3pP3/8/8/8/4K3 w - d6 0 2", 0, 2);
    assert!(state.move_is_en_passant(PieceColor::WHITE, Square::D6));
    let taken = state.update_piece(PieceColor::WHITE, Square::E5, Square::D6);
    assert_eq!(taken, Some(5000 + Square::D5.to_index() as Entity));
    assert_eq!(state.get_piece(Square::D5), None);
    assert_eq!(state.get_piece(Square::D6), Some(5000 + Square::E5.to_index() as Entity));
}

#[test]
fn plan_of_a_promotion_and_of_castling() {
    let state = ready_state("4k3/P7/8/8/8/8/8/R3K2R w KQ - 0 1", 0, 1);
    let pawn = PieceMeta::new(PieceColor::WHITE, PieceType::PAWN);
    match plan_move(&state, MovePiece::new(Square::A7, Square::A8, None, true), pawn) {
        MovePlan::StartPromotion { from_sq, to_sq } => assert_eq!((from_sq, to_sq), (Square::A7, Square::A8)),
        _ => panic!("expected a promotion"),
    }
    match plan_move(&state, MovePiece::new(Square::A7, Square::A8, Some(PieceType::QUEEN), false), pawn) {
        MovePlan::Move(steps) => {
            assert_eq!(steps.new_asset_path, Some("images/pieces/white-queen.png"));
            assert_eq!(steps.audio, PlayGameAudio::Promote);
        },
        _ => panic!("expected a move"),
    }
    let king = PieceMeta::new(PieceColor::WHITE, PieceType::KING);
    match plan_move(&state, MovePiece::new(Square::E1, Square::G1, None, true), king) {
        MovePlan::Move(steps) => {
            let rook = state.piece(Square::H1);
            assert_eq!(steps.rook_move, Some((rook, Square::H1, Square::F1)));
            assert_eq!(steps.audio, PlayGameAudio::Castle);
            assert!(!steps.is_capture);
        },
        _ => panic!("expected a move"),
    }
    match plan_move(&state, MovePiece::new(Square::E1, Square::C1, None, true), king) {
        MovePlan::Move(steps) => assert_eq!(steps.rook_move, Some((state.piece(Square::A1), Square::A1, Square::D1))),
        _ => panic!("expected a move"),
    }
}

#[test]
fn move_sounds() {
    assert_eq!(PlayGameAudio::Capture.asset_path(0), "audio/capture.flac");
    assert_eq!(PlayGameAudio::MoveSelf.asset_path(0), "audio/move-self.flac");
    assert_eq!(PlayGameAudio::MoveSelf.asset_path(1 << 12), "audio/move-check.flac");
}

#[test]
fn counters_after_moves() {
    let mut state = ready_state(START_FEN, 0, 1);
    let over = update_board_state(&mut state, Square::G1, Square::F3, PieceColor::WHITE, PieceType::KNIGHT, None, false);
    assert!(!over);
    assert_eq!(state.fen(), "rnbqkbnr/pppppppp/8/8/8/5N2/PPPPPPPP/RNBQKB1R b KQkq - 1 1");
    update_board_state(&mut state, Square::E7, Square::E5, PieceColor::BLACK, PieceType::PAWN, None, false);
    assert_eq!(state.fen(), "rnbqkbnr/pppp1ppp/8/4p3/8/5N2/PPPPPPPP/RNBQKB1R w KQkq - 0 2");
}

#[test]
fn checkmate_is_game_over() {
    let mut state = ready_state("rnbqkbnr/pppp1ppp/8/4p3/6P1/5P2/PPPPP2P/RNBQKBNR b KQkq - 0 2", 0, 2);
    let over = update_board_state(&mut state, Square::D8, Square::H4, PieceColor::BLACK, PieceType::QUEEN, None, false);
    assert!(over);
    assert_eq!(state.status(), GameStatus::GameOverCheckmate);
}

#[test]
fn threefold_repetition_ends_the_game() {
    let mut state = ready_state(START_FEN, 0, 1);
    let knight = PieceType::KNIGHT;
    let shuffle = [
        (Square::G1, Square::F3, PieceColor::WHITE),
        (Square::G8, Square::F6, PieceColor::BLACK),
        (Square::F3, Square::G1, PieceColor::WHITE),
        (Square::F6, Square::G8, PieceColor::BLACK),
    ];
    let mut over = false;
    for _ in 0..2 {
        for (from, to, color) in shuffle {
            over = update_board_state(&mut state, from, to, color, knight, None, false);
        }
    }
    assert!(over);
    assert_eq!(state.status(), GameStatus::GameOverRepetition);
}

#[test]
fn fifty_moves_end_the_game() {
    let mut state = ready_state("4k3/8/8/8/8/8/8/4K2R w - - 0 1", 99, 60);
    let over = update_board_state(&mut state, Square::H1, Square::H2, PieceColor::WHITE, PieceType::ROOK, None, false);
    assert!(over);
    assert_eq!(state.status(), GameStatus::GameOver50Moves);
}

#[test]
fn boards_without_the_movers_king_are_refused_before_reading() {
    assert!(board_parse_safe(START_FEN));
    assert!(board_parse_safe("garbage"));
    assert!(!board_parse_safe("8/8/8/8/8/8/8/8 w - - 0 1"));
    // Black's king is missing but White is to move: the engine reads it and rejects it.
    assert!(board_parse_safe("8/8/8/8/8/8/8/K7 w - - 0 1"));
    assert!(!board_parse_safe("8/8/8/8/8/8/8/K7 b - - 0 1"));
    assert!(load_game_on_startup_checked(Some("8/8/8/8/8/8/8/K7 b - - 0 1")).is_none());
    assert!(matches!(load_game_on_startup_checked(Some("8/8/8/8/8/8/8/K7 w - - 0 1")), Some(Err(_))));
    assert!(matches!(load_game_on_startup_checked(None), Some(Ok(_))));
    assert!(board_state_from_cli_checked(Some("8/8/8/8/8/8/8/8 w - - 0 1")).is_none());
    let state = board_state_from_cli_checked(Some("4k3/8/8/8/8/8/8/4K3 w - - 5 50")).expect("safe");
    assert_eq!(state.fen(), "4k3/8/8/8/8/8/8/4K3 w - - 5 50");
}

#[test]
fn pretty_string_draws_the_ranks_from_the_eighth() {
    let start = Position::of(&chess::Board::default());
    assert_eq!(
        start.to_pretty_string(),
        "r n b q k b n r\np p p p p p p p\n. . . . . . . .\n. . . . . . . .\n. . . . . . . .\n. . . . . . . .\nP P P P P P P P\nR N B Q K B N R"
    );
    let sparse = Position::of(&board_from("4k3/8/8/8/8/8/8/4K2R w K - 0 1"));
    let text = sparse.to_pretty_string();
    assert_eq!(text.len(), 127);
    assert_eq!(text.lines().next(), Some(". . . . k . . ."));
    assert_eq!(text.lines().last(), Some(". . . . K . . R"));
}

#[test]
fn a_board_move_makes_the_engine_move() {
    let start = chess::Board::default();
    let mut state = BoardState::new(start, 0, 1);
    state.make_board_move(Square::from_index(12), Square::from_index(28), None);
    let expected = start.make_move_new(chess::ChessMove::new(chess::Square::E2, chess::Square::E4, None));
    assert_eq!(*state.board(), expected);
    assert_eq!(state.side_to_move(), PieceColor::BLACK);
    state.reset();
    assert_eq!(*state.board(), chess::Board::default());
}

#[test]
fn parsed_boards_hold_the_fen() {
    let fen = "r3k2r/8/8/8/8/8/8/4K2R b Kq - 3 12";
    let (board, h, f) = parse_fen(fen).ok().unwrap();
    assert_eq!(board, chess::Board::from_str(fen).unwrap());
    assert_eq!((h, f), (3, 12));
    assert_eq!(board.side_to_move(), chess::Color::Black);
}

#[test]
fn the_fen_written_reads_back() {
    let fen = "r3k2r/pp3ppp/8/3pP3/8/8/PPP2PPP/R3K2R w KQkq d6 7 21";
    let state = BoardState::new(board_from(fen), 7, 21);
    let written = state.fen();
    // The engine names the en passant pawn's square, d5, where the text gave the square behind it.
    assert_eq!(written, "r3k2r/pp3ppp/8/3pP3/8/8/PPP2PPP/R3K2R w KQkq d5 7 21");
    let (board, h, f) = parse_fen(&written).ok().unwrap();
    assert_eq!(board, *state.board());
    assert_eq!((h, f), (7, 21));
}

#[test]
fn the_starting_fen_is_written_back() {
    let state = BoardState::new(chess::Board::default(), 0, 1);
    let written = state.fen();
    assert_eq!(written, "rnbqkbnr/pppppppp/8/8/8/8/PPPPPPPP/RNBQKBNR w KQkq - 0 1");
    let (board, h, f) = parse_fen(&written).ok().unwrap();
    assert_eq!((board, h, f), (chess::Board::default(), 0, 1));
}
