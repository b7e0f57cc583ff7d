use std::str::FromStr;

use gambit::board_state::{BoardState, Entity};
use gambit::selection::MovePiece;
use gambit::square::Square;
use gambit::stockfish::{
    bestmove_squares, initialize_stockfish, stockfish_move_as_black, stockfish_update, SfCommand,
    SfCommunications, SfDriver, SfFault, SfMessage, SfState, Stockfish,
};

fn kinds(cmds: &[SfCommand]) -> Vec<String> {
    cmds.iter().map(|c| format!("{c:?}")).collect()
}

fn strings(lines: &[&str]) -> Vec<String> {
    lines.iter().map(|s| s.to_string()).collect()
}

fn black_to_move() -> BoardState {
    let board = chess::Board::from_str("rnbqkbnr/pppppppp/8/8/4P3/8/PPPP1PPP/RNBQKBNR b KQkq - 0 1").unwrap();
    let mut state = BoardState::new(board, 0, 1);
    for i in 0..64u8 {
        let sq = Square::from_index(i);
        if state.get_piece_meta(sq).is_some() {
            state.set_piece(sq, 500 + i as Entity);
        }
    }
    state
}

#[test]
fn command_bytes() {
    assert_eq!(SfCommand::Uci.into_bytes(), b"uci\n".to_vec());
    assert_eq!(SfCommand::IsReady.into_bytes(), b"isready\n".to_vec());
    assert_eq!(SfCommand::UciNewGame.into_bytes(), b"ucinewgame\n".to_vec());
    assert_eq!(SfCommand::Go.into_bytes(), b"go infinite\n".to_vec());
    assert_eq!(SfCommand::Stop.into_bytes(), b"stop\n".to_vec());
    assert_eq!(SfCommand::Sleep(10).into_bytes(), Vec::<u8>::new());
    assert_eq!(
        SfCommand::Position("8/8/8/8/8/8/8/K1k5 w - - 0 1".to_string()).into_bytes(),
        b"position fen 8/8/8/8/8/8/8/K1k5 w - - 0 1\n".to_vec()
    );
}

#[test]
fn bestmove_lines() {
    let chars = |s: &str| s.chars().collect::<Vec<char>>();
    assert_eq!(bestmove_squares(&chars("bestmove e7e5 ponder g1f3")), Some((Square::E7, Square::E5)));
    assert_eq!(bestmove_squares(&chars("bestmove a7a8q")), Some((Square::A7, Square::A8)));
    assert_eq!(bestmove_squares(&chars("bestmove (none)")), None);
    assert_eq!(bestmove_squares(&chars("bestmove")), None);
    assert_eq!(bestmove_squares(&chars("bestmove e7")), None);
}

#[test]
fn handshake_then_search() {
    let board = black_to_move();
    let mut sf = initialize_stockfish();
    let mut comms = SfCommunications::default();
    let mut driver = SfDriver::new();

    // The first update sends "uci" and waits for "uciok".
    let u = stockfish_update(&mut driver, &mut comms, &mut sf, &board, vec![]).unwrap();
    assert_eq!(kinds(&u.writes), vec!["Uci"]);
    assert_eq!(driver.state, SfState::WaitingUci);

    // Nothing happens until the engine answers.
    let u = stockfish_update(&mut driver, &mut comms, &mut sf, &board, strings(&["id name Stockfish"])).unwrap();
    assert!(u.writes.is_empty());
    assert_eq!(driver.state, SfState::WaitingUci);
    // The failed scan moves the cursor one past the responses.
    assert_eq!(driver.response_cursor, 2);

    // The scan goes on from the cursor, so "option x" is never looked at.
    let u = stockfish_update(&mut driver, &mut comms, &mut sf, &board, strings(&["option x", "uciok"])).unwrap();
    assert_eq!(kinds(&u.writes), vec!["UciNewGame", "IsReady"]);
    assert_eq!(driver.state, SfState::WaitingReady);
    assert_eq!(driver.response_cursor, 3);

    let u = stockfish_update(&mut driver, &mut comms, &mut sf, &board, strings(&["readyok"])).unwrap();
    assert!(u.writes.is_empty());
    assert_eq!(driver.state, SfState::Idle);

    // Black to move: the search is queued.
    stockfish_move_as_black(&board, &mut sf);
    let u = stockfish_update(&mut driver, &mut comms, &mut sf, &board, vec![]).unwrap();
    assert_eq!(kinds(&u.writes).len(), 2);
    match &u.writes[0] {
        SfCommand::Position(fen) => {
            assert_eq!(fen, "rnbqkbnr/pppppppp/8/8/4P3/8/PPPP1PPP/RNBQKBNR b KQkq - 0 1")
        },
        other => panic!("unexpected {other:?}"),
    }
    assert_eq!(u.sleep_ms, Some(2500));
    assert_eq!(driver.state, SfState::Idle);

    let u = stockfish_update(&mut driver, &mut comms, &mut sf, &board, vec![]).unwrap();
    assert_eq!(kinds(&u.writes), vec!["Stop"]);
    assert_eq!(driver.state, SfState::WaitingFinishSearch);

    let u = stockfish_update(&mut driver, &mut comms, &mut sf, &board, strings(&["info depth 20", "bestmove e7e5 ponder g1f3"]))
        .unwrap();
    assert_eq!(u.best_move, Some((500 + Square::E7.to_index() as Entity, MovePiece::new(Square::E7, Square::E5, None, true))));
    assert_eq!(driver.state, SfState::Idle);

    // Every command sent and every response is in the log.
    let commands = comms.0.iter().filter(|m| matches!(m, SfMessage::Command(_))).count();
    let responses = comms.0.iter().filter(|m| m.as_response().is_some()).count();
    assert_eq!(commands, 6);
    assert_eq!(responses, 6);
}

#[test]
fn a_bad_best_move_is_a_fault() {
    let board = black_to_move();
    let mut sf = Stockfish::new();
    let mut comms = SfCommunications::default();
    let mut driver = SfDriver { state: SfState::WaitingFinishSearch, response_cursor: 0 };
    match stockfish_update(&mut driver, &mut comms, &mut sf, &board, strings(&["bestmove (none)"])) {
        Err(SfFault::InvalidBestMove(line)) => assert_eq!(line, "bestmove (none)"),
        other => panic!("unexpected {other:?}"),
    }
    let mut driver = SfDriver { state: SfState::WaitingFinishSearch, response_cursor: 1 };
    match stockfish_update(&mut driver, &mut comms, &mut sf, &board, strings(&["bestmove e5e6"])) {
        Err(SfFault::NoPieceToMove(sq)) => assert_eq!(sq, Square::E5),
        other => panic!("unexpected {other:?}"),
    }
}

#[test]
fn white_to_move_queues_nothing() {
    let board = BoardState::new(chess::Board::default(), 0, 1);
    let mut sf = Stockfish::new();
    stockfish_move_as_black(&board, &mut sf);
    assert!(sf.pop_cmd().is_none());
}

#[test]
fn queue_is_first_in_first_out() {
    let mut sf = Stockfish::new();
    sf.extend_cmds(vec![SfCommand::Go, SfCommand::Sleep(5), SfCommand::Stop]);
    assert!(matches!(sf.pop_cmd(), Some(SfCommand::Go)));
    assert!(matches!(sf.pop_cmd(), Some(SfCommand::Sleep(5))));
    assert!(matches!(sf.pop_cmd(), Some(SfCommand::Stop)));
    assert!(sf.pop_cmd().is_none());
}

#[test]
fn a_pause_stops_sending() {
    let board = black_to_move();
    let mut sf = Stockfish::new();
    sf.extend_cmds(vec![SfCommand::Go, SfCommand::Sleep(5), SfCommand::Stop]);
    let mut comms = SfCommunications::default();
    let mut driver = SfDriver::new();
    let u = stockfish_update(&mut driver, &mut comms, &mut sf, &board, vec![]).unwrap();
    assert_eq!(kinds(&u.writes), vec!["Go"]);
    assert_eq!(u.sleep_ms, Some(5));
    assert!(matches!(sf.pop_cmd(), Some(SfCommand::Stop)));
}
