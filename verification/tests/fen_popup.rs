use gambit::fen_popup::{castle_rights, compute_hash, en_passant_label, PopupModel, PopupState, DEFAULT_FEN};
use gambit::game::MenuState;
use gambit::position::CastleRights;

#[test]
fn castle_rights_of_flags() {
    assert_eq!(castle_rights(true, true), CastleRights::Both);
    assert_eq!(castle_rights(true, false), CastleRights::KingSide);
    assert_eq!(castle_rights(false, true), CastleRights::QueenSide);
    assert_eq!(castle_rights(false, false), CastleRights::NoRights);
}

#[test]
fn hashes_follow_values() {
    let a = PopupModel::default();
    let mut b = PopupModel::default();
    assert_eq!(compute_hash(&a), compute_hash(&b));
    b.halfmove_clock = 3;
    assert_ne!(compute_hash(&a), compute_hash(&b));
    assert_eq!(compute_hash(&"abc".to_string()), compute_hash(&"abc".to_string()));
}

#[test]
fn default_controls() {
    let m = PopupModel::default();
    assert!(!m.black_to_move);
    assert!(m.castle_rights_white_kingside && m.castle_rights_white_queenside);
    assert!(m.castle_rights_black_kingside && m.castle_rights_black_queenside);
    assert!(!m.has_en_passant_target);
    assert_eq!((m.halfmove_clock, m.fullmove_count), (0, 1));
    let s = PopupState::default();
    assert!(s.focus_fen && !s.invalid_fen && s.fen.is_empty());
}

#[test]
fn empty_text_is_written_from_the_controls() {
    let mut s = PopupState::default();
    s.update_fen_from_controls();
    assert_eq!(s.fen, DEFAULT_FEN);
    assert!(!s.invalid_fen);
}

#[test]
fn controls_are_written_into_the_text() {
    let mut s = PopupState::default();
    s.controls.black_to_move = true;
    s.controls.castle_rights_white_queenside = false;
    s.controls.castle_rights_black_kingside = false;
    s.controls.castle_rights_black_queenside = false;
    s.controls.has_en_passant_target = true;
    s.controls.en_passant_target_file = 4;
    s.controls.halfmove_clock = 5;
    s.controls.fullmove_count = 10;
    s.update_fen_from_controls();
    assert_eq!(s.fen, "rnbqkbnr/pppppppp/8/8/8/8/PPPPPPPP/RNBQKBNR b K e4 5 10");
    s.controls.castle_rights_white_kingside = false;
    s.controls.has_en_passant_target = false;
    s.controls.black_to_move = false;
    s.update_fen_from_controls();
    assert_eq!(s.fen, "rnbqkbnr/pppppppp/8/8/8/8/PPPPPPPP/RNBQKBNR w - - 5 10");
}

#[test]
fn a_rejected_text_stays() {
    let mut s = PopupState::default();
    s.fen = "no fen here".to_string();
    s.update_fen_from_controls();
    assert!(s.invalid_fen);
    assert_eq!(s.fen, "no fen here");
}

#[test]
fn text_sets_the_controls() {
    let mut s = PopupState::default();
    s.fen = "r3k2r/8/8/8/8/8/8/4K2R b Kq - 3 12".to_string();
    s.update_controls_from_fen();
    assert!(!s.invalid_fen);
    assert!(s.controls.black_to_move);
    assert!(s.controls.castle_rights_white_kingside && !s.controls.castle_rights_white_queenside);
    assert!(!s.controls.castle_rights_black_kingside && s.controls.castle_rights_black_queenside);
    assert!(!s.controls.has_en_passant_target);
    assert_eq!((s.controls.halfmove_clock, s.controls.fullmove_count), (3, 12));
}

#[test]
fn unreadable_counters_keep_the_controls_counters() {
    let mut s = PopupState::default();
    s.controls.halfmove_clock = 4;
    s.fen = "4k3/8/8/8/8/8/8/4K3 w - - x 7".to_string();
    s.update_controls_from_fen();
    assert!(!s.invalid_fen);
    assert_eq!((s.controls.halfmove_clock, s.controls.fullmove_count), (4, 7));
    s.fen = "not a board".to_string();
    s.update_controls_from_fen();
    assert!(s.invalid_fen);
    assert_eq!((s.controls.halfmove_clock, s.controls.fullmove_count), (4, 7));
}

#[test]
fn sync_follows_the_last_edit() {
    let mut s = PopupState::default();
    s.fen = "4k3/8/8/8/8/8/8/4K3 b - - 2 30".to_string();
    s.sync();
    assert!(s.controls.black_to_move);
    assert_eq!(s.controls.fullmove_count, 30);
    s.controls.fullmove_count = 31;
    s.sync();
    assert_eq!(s.fen, "4k3/8/8/8/8/8/8/4K3 b - - 2 31");
    let before = s.fen.clone();
    s.sync();
    assert_eq!(s.fen, before);
}

#[test]
fn reset_clears_everything() {
    let mut s = PopupState::default();
    s.fen = "x".to_string();
    s.focus_fen = false;
    s.invalid_fen = true;
    s.controls.black_to_move = true;
    s.reset();
    assert!(s.fen.is_empty() && s.focus_fen && !s.invalid_fen);
    assert_eq!(s.controls, PopupModel::default());
}

#[test]
fn en_passant_labels() {
    assert_eq!(en_passant_label(true, 4), "e4");
    assert_eq!(en_passant_label(false, 0), "a5");
    assert_eq!(en_passant_label(false, 7), "h5");
}

#[test]
fn submit_loads_the_game_with_the_counters() {
    let mut s = PopupState::default();
    s.fen = "4k3/8/8/8/8/8/8/4K3 w - - 0 1".to_string();
    s.controls.halfmove_clock = 6;
    s.controls.fullmove_count = 40;
    let game = s.submit().expect("valid board");
    assert_eq!(game.menu_state, MenuState::Game);
    assert_eq!((game.half_move_clock, game.full_move_count), (6, 40));
    s.fen = "8/8/8/8/8/8/8/Kk6 w - - 0 1".to_string();
    assert!(s.submit().is_err());
    // Without a king of the side to move the chess engine cannot read the board.
    s.fen = "8/8/8/8/8/8/8/8 w - - 0 1".to_string();
    assert!(s.submit_checked().is_none());
    let before = s.fen.clone();
    assert!(!s.sync_checked());
    assert_eq!(s.fen, before);
}

#[test]
fn controls_written_then_read_stay_the_same() {
    let mut s = PopupState::default();
    s.fen = "r3k2r/8/8/8/8/8/8/R3K2R w KQkq - 0 1".to_string();
    s.controls.black_to_move = true;
    s.controls.castle_rights_white_kingside = false;
    s.controls.castle_rights_black_queenside = false;
    s.controls.halfmove_clock = 17;
    s.controls.fullmove_count = 300;
    let before = s.controls;
    s.update_fen_from_controls();
    assert!(!s.invalid_fen);
    s.controls = PopupModel::default();
    s.update_controls_from_fen();
    assert!(!s.invalid_fen);
    assert_eq!(s.controls.black_to_move, before.black_to_move);
    assert_eq!(s.controls.castle_rights_white_kingside, before.castle_rights_white_kingside);
    assert_eq!(s.controls.castle_rights_white_queenside, before.castle_rights_white_queenside);
    assert_eq!(s.controls.castle_rights_black_kingside, before.castle_rights_black_kingside);
    assert_eq!(s.controls.castle_rights_black_queenside, before.castle_rights_black_queenside);
    assert_eq!(s.controls.halfmove_clock, 17);
    assert_eq!(s.controls.fullmove_count, 300);
}

#[test]
fn en_passant_controls_follow_the_board() {
    let mut s = PopupState::default();
    s.fen = "rnbqkbnr/ppp1pppp/8/8/3pP3/8/PPPP1PPP/RNBQKBNR b KQkq e3 0 3".to_string();
    s.update_controls_from_fen();
    assert!(!s.invalid_fen);
    assert!(s.controls.has_en_passant_target);
    assert_eq!(s.controls.en_passant_target_file, 4);
    s.fen = "rnbqkbnr/pppppppp/8/8/4P3/8/PPPP1PPP/RNBQKBNR b KQkq e3 0 1".to_string();
    s.update_controls_from_fen();
    assert!(!s.controls.has_en_passant_target);
    assert_eq!(s.controls.en_passant_target_file, 4);
}

#[test]
fn a_second_sync_changes_nothing() {
    let mut s = PopupState::default();
    s.fen = "r3k2r/8/8/8/8/8/8/4K2R b Kq - 3 12".to_string();
    s.sync();
    assert!(s.controls.black_to_move);
    let (fen, controls, fh, ch) = (s.fen.clone(), s.controls, s.fen_hash, s.controls_hash);
    s.sync();
    assert_eq!((s.fen.clone(), s.controls, s.fen_hash, s.controls_hash), (fen, controls, fh, ch));
    s.controls.halfmove_clock = 9;
    s.sync();
    assert_eq!(s.fen, "r3k2r/8/8/8/8/8/8/4K2R b Kq - 9 12");
}

#[test]
fn control_edits_rewrite_a_text_the_engine_cannot_read() {
    let mut s = PopupState::default();
    s.fen = "8/8/8/8/8/8/8/K7 w - - 0 1".to_string();
    assert!(s.sync_checked());
    assert!(s.invalid_fen);
    s.controls.black_to_move = true;
    s.controls.castle_rights_white_kingside = false;
    s.controls.castle_rights_white_queenside = false;
    s.controls.castle_rights_black_kingside = false;
    s.controls.castle_rights_black_queenside = false;
    assert!(s.sync_checked());
    assert_eq!(s.fen, "8/8/8/8/8/8/8/K7 b - - 0 1");
    s.controls.halfmove_clock = 4;
    assert!(s.sync_checked());
    assert_eq!(s.fen, "8/8/8/8/8/8/8/K7 b - - 4 1");
    s.fen = "8/8/8/8/8/8/8/K7 b - - 5 1".to_string();
    assert!(!s.sync_checked());
    assert_eq!(s.fen, "8/8/8/8/8/8/8/K7 b - - 5 1");
}
