use vstd::prelude::*;

use crate::board_state::{BoardState, GameStatus};
use crate::chess_calls::{
    board_default, board_fen_accepted, board_from_str, board_sane, builder_fields, builder_from_str, builder_piece_code,
    builder_side_to_move, builder_squares, fen_builder_squares, king_code, spec_board_parse_safe, spec_read_from,
    spec_reads_back,
    spec_start_fen,
    spec_builder_accepts, spec_builder_fields_of,
};
use crate::piece::PieceColor;
use crate::square::Square;
use crate::text::{parse_unsigned, parse_unsigned_chars, split_chars, split_on, str_chars};

verus! {

/// Why a FEN could not be read into a board.
#[derive(Debug)]
pub enum ChessError {
    /// The FEN string is invalid.
    InvalidFen { fen: String },
    /// The board described does not pass the chess engine's sanity checks.
    InvalidBoard,
}

/// Which screen the application shows.
#[derive(Clone, Copy, Debug, PartialEq, Eq, Structural)]
pub enum MenuState {
    FenInput,
    Menu,
    Game,
    DoGameOver,
}

/// The move counters of a FEN: its fifth and sixth space-separated fields, read as a byte and
/// as a 16-bit number.
pub open spec fn spec_fen_counters(fen: Seq<char>) -> Option<(u8, u16)> {
    let t = split_on(fen, ' ');
    if t.len() >= 6 {
        match (parse_unsigned(t[4], 255), parse_unsigned(t[5], 65535)) {
            (Some(h), Some(f)) => Some((h as u8, f as u16)),
            _ => None,
        }
    } else {
        None
    }
}

/// Reads the move counters of a FEN (its fifth and sixth fields).
pub fn fen_counters(fen: &str) -> (res: Option<(u8, u16)>)
    ensures
        res == spec_fen_counters(fen@),
{
    let chars = str_chars(fen);
    let tokens = split_chars(chars.as_slice(), ' ');
    if tokens.len() < 6 {
        return None;
    }
    let half = parse_unsigned_chars(tokens[4].as_slice(), 255);
    let full = parse_unsigned_chars(tokens[5].as_slice(), 65535);
    match (half, full) {
        (Some(h), Some(f)) => Some((h as u8, f as u16)),
        _ => None,
    }
}

/// Whether the chess engine can read the text safely: when its board builder accepts it, a king
/// of the side to move stands on the board (see `board_from_str`).
pub fn board_parse_safe(fen: &str) -> (b: bool)
    ensures
        b == spec_board_parse_safe(fen@),
{
    match builder_from_str(fen) {
        Err(_) => true,
        Ok(b) => {
            let side = builder_side_to_move(&b);
            let king: u8 = match side {
                PieceColor::White => 6,
                PieceColor::Black => 12,
            };
            let ghost expected = king_code(
                if spec_builder_fields_of(fen@)[0] == 0 {
                    PieceColor::White
                } else {
                    PieceColor::Black
                },
            );
            assert(king == expected);
            let mut i: u8 = 0;
            while i < 64
                invariant
                    i <= 64,
                    builder_squares(b) == fen_builder_squares(fen@),
                    fen_builder_squares(fen@).len() == 64,
                    spec_builder_accepts(fen@),
                    king == expected,
                    expected == king_code(
                        if spec_builder_fields_of(fen@)[0] == 0 {
                            PieceColor::White
                        } else {
                            PieceColor::Black
                        },
                    ),
                    forall|j: int| 0 <= j < i ==> fen_builder_squares(fen@)[j] != expected,
                decreases 64 - i,
            {
                let sq = Square::from_index(i);
                if builder_piece_code(&b, sq) == king {
                    assert(fen_builder_squares(fen@)[i as int] == expected);
                    assert(spec_board_parse_safe(fen@));
                    return true;
                }
                i = i + 1;
            }
            false
        },
    }
}

/// The error for a text the chess engine rejects: an invalid FEN, holding the text, when its
/// board builder rejects it; an invalid board when the builder accepts it but the board fails
/// the sanity check.
pub open spec fn spec_board_error(fen: Seq<char>, e: ChessError) -> bool {
    if spec_builder_accepts(fen) {
        e is InvalidBoard
    } else {
        e matches ChessError::InvalidFen { fen: text } && text@ == fen
    }
}

/// The error for a FEN that cannot be loaded: the chess engine's error when it rejects the
/// text, else an invalid FEN, holding the text, for move counters out of range.
pub open spec fn spec_parse_error(fen: Seq<char>, e: ChessError) -> bool {
    if board_fen_accepted(fen) {
        e matches ChessError::InvalidFen { fen: text } && text@ == fen
    } else {
        spec_board_error(fen, e)
    }
}

/// The error `chess::Board::from_str` gives for a text it rejects: the one of its board builder
/// when that rejects the text, else an invalid board.
pub fn board_error(fen: &str) -> (e: ChessError)
    ensures
        spec_board_error(fen@, e),
{
    match builder_from_str(fen) {
        Ok(_) => ChessError::InvalidBoard,
        Err(_) => ChessError::InvalidFen { fen: fen.to_string() },
    }
}

/// Reads a FEN into a board, its half-move clock and its full-move count. The board part is
/// read by the chess engine; then the fifth and sixth fields must be a byte and a 16-bit
/// number, or the error is an invalid FEN that holds the text.
pub fn parse_fen(fen: &str) -> (res: Result<(chess::Board, u8, u16), ChessError>)
    requires
        spec_board_parse_safe(fen@),
    ensures
        res is Ok <==> board_fen_accepted(fen@) && spec_fen_counters(fen@) is Some,
        res matches Ok((b, h, f)) ==> spec_fen_counters(fen@) == Some((h, f)) && board_sane(b) && spec_read_from(b, fen@)
            && spec_reads_back(b),
        res matches Err(e) ==> spec_parse_error(fen@, e),
{
    let board = match board_from_str(fen) {
        Ok(b) => b,
        Err(_) => {
            return Err(board_error(fen));
        },
    };
    match fen_counters(fen) {
        Some((h, f)) => Ok((board, h, f)),
        None => Err(ChessError::InvalidFen { fen: fen.to_string() }),
    }
}


/// A request to load a game: the board, its counters, and the screen to show afterwards.
pub struct LoadGame {
    pub board: chess::Board,
    pub menu_state: MenuState,
    pub half_move_clock: u8,
    pub full_move_count: u16,
}

impl LoadGame {
    pub fn new(board: chess::Board, half_move_clock: u8, full_move_count: u16, menu_state: MenuState) -> (l: LoadGame)
        ensures
            l.board == board,
            l.half_move_clock == half_move_clock,
            l.full_move_count == full_move_count,
            l.menu_state == menu_state,
    {
        LoadGame { board, half_move_clock, full_move_count, menu_state }
    }

    /// A game to play at once.
    pub fn in_game(board: chess::Board, half_move_clock: u8, full_move_count: u16) -> (l: LoadGame)
        ensures
            l.board == board,
            l.half_move_clock == half_move_clock,
            l.full_move_count == full_move_count,
            l.menu_state == MenuState::Game,
    {
        Self::new(board, half_move_clock, full_move_count, MenuState::Game)
    }

    /// The starting position behind the main menu, with a half-move clock of 0 and a full-move
    /// count of 1.
    pub fn in_menu() -> (l: LoadGame)
        ensures
            board_sane(l.board),
            spec_read_from(l.board, spec_start_fen()),
            spec_reads_back(l.board),
            l.half_move_clock == 0,
            l.full_move_count == 1,
            l.menu_state == MenuState::Menu,
    {
        Self::new(board_default(), 0, 1, MenuState::Menu)
    }
}

/// The game loaded at startup: with no FEN on the command line, the starting position behind
/// the main menu; with a FEN, its board and counters, straight into the game; an unreadable FEN
/// is an error and nothing is loaded.
pub fn load_game_on_startup(fen: Option<&str>) -> (res: Result<LoadGame, ChessError>)
    requires
        fen matches Some(f) ==> spec_board_parse_safe(f@),
    ensures
        fen is None ==> (res matches Ok(l) && l.menu_state == MenuState::Menu && l.half_move_clock == 0
            && l.full_move_count == 1 && spec_read_from(l.board, spec_start_fen())),
        res matches Ok(l) ==> board_sane(l.board) && spec_reads_back(l.board),
        fen matches Some(f) ==> (res matches Ok(l) ==> spec_read_from(l.board, f@)),
        fen matches Some(f) ==> (res is Ok <==> board_fen_accepted(f@) && spec_fen_counters(f@) is Some),
        fen matches Some(f) ==> (res matches Ok(l) ==> l.menu_state == MenuState::Game
            && spec_fen_counters(f@) == Some((l.half_move_clock, l.full_move_count))),
        fen matches Some(f) ==> (res matches Err(e) ==> spec_parse_error(f@, e)),
{
    match fen {
        None => Ok(LoadGame::in_menu()),
        Some(f) => match parse_fen(f) {
            Ok((board, h, full)) => Ok(LoadGame::in_game(board, h, full)),
            Err(e) => Err(e),
        },
    }
}

/// The first screen: the game when a FEN is given on the command line, else the main menu.
pub fn init_menu_state_from_cli(fen: Option<&str>) -> (s: MenuState)
    ensures
        s == (if fen is Some { MenuState::Game } else { MenuState::Menu }),
{
    match fen {
        Some(_) => MenuState::Game,
        None => MenuState::Menu,
    }
}

/// The board state at startup: the FEN given on the command line, or, when there is none or it
/// cannot be read, the starting position with both counters at 0.
pub fn board_state_from_cli(fen: Option<&str>) -> (s: BoardState)
    requires
        fen matches Some(f) ==> spec_board_parse_safe(f@),
    ensures
        s.wf(),
        s.spec_status() == GameStatus::Ongoing,
        s.spec_pieces() == Seq::new(64, |i: int| None::<crate::board_state::Entity>),
        s.spec_counters() == Map::<u64, u8>::empty().insert(s.spec_position().hash, 1),
        match fen {
            Some(f) if board_fen_accepted(f@) && spec_fen_counters(f@) is Some => Some(
                (s.spec_half_move_clock(), s.spec_full_move_count()),
            ) == spec_fen_counters(f@),
            _ => s.spec_half_move_clock() == 0 && s.spec_full_move_count() == 0,
        },
        match fen {
            Some(f) if board_fen_accepted(f@) && spec_fen_counters(f@) is Some => spec_read_from(s.spec_board(), f@),
            _ => spec_read_from(s.spec_board(), spec_start_fen()),
        },
{
    let parsed = match fen {
        Some(f) => match parse_fen(f) {
            Ok(data) => Some(data),
            Err(_) => None,
        },
        None => None,
    };
    match parsed {
        Some((board, h, full)) => BoardState::new(board, h, full),
        None => BoardState::new(board_default(), 0, 0),
    }
}

/// The game loaded at startup (see `load_game_on_startup`), when the chess engine can read the
/// FEN given; `None`, and nothing loaded, when it cannot (see `board_parse_safe`).
pub fn load_game_on_startup_checked(fen: Option<&str>) -> (res: Option<Result<LoadGame, ChessError>>)
    ensures
        res is None <==> (fen matches Some(f) && !spec_board_parse_safe(f@)),
        fen is None ==> (res matches Some(Ok(l)) && l.menu_state == MenuState::Menu && l.half_move_clock == 0
            && l.full_move_count == 1 && spec_read_from(l.board, spec_start_fen())),
        fen matches Some(f) ==> (res matches Some(Ok(l)) ==> spec_read_from(l.board, f@)),
        res matches Some(Ok(l)) ==> board_sane(l.board) && spec_reads_back(l.board),
        fen matches Some(f) ==> (res matches Some(r) ==> (r is Ok <==> board_fen_accepted(f@) && spec_fen_counters(f@) is Some)),
        fen matches Some(f) ==> (res matches Some(Ok(l)) ==> l.menu_state == MenuState::Game
            && spec_fen_counters(f@) == Some((l.half_move_clock, l.full_move_count))),
        fen matches Some(f) ==> (res matches Some(Err(e)) ==> spec_parse_error(f@, e)),
{
    match fen {
        Some(f) => if !board_parse_safe(f) {
            return None;
        },
        None => {},
    }
    Some(load_game_on_startup(fen))
}

/// The board state at startup (see `board_state_from_cli`), when the chess engine can read the
/// FEN given; `None` when it cannot (see `board_parse_safe`).
pub fn board_state_from_cli_checked(fen: Option<&str>) -> (res: Option<BoardState>)
    ensures
        res is None <==> (fen matches Some(f) && !spec_board_parse_safe(f@)),
        res matches Some(s) ==> {
            &&& s.wf()
            &&& s.spec_status() == GameStatus::Ongoing
            &&& match fen {
                Some(f) if board_fen_accepted(f@) && spec_fen_counters(f@) is Some => Some(
                    (s.spec_half_move_clock(), s.spec_full_move_count()),
                ) == spec_fen_counters(f@),
                _ => s.spec_half_move_clock() == 0 && s.spec_full_move_count() == 0,
            }
            &&& match fen {
                Some(f) if board_fen_accepted(f@) && spec_fen_counters(f@) is Some => spec_read_from(s.spec_board(), f@),
                _ => spec_read_from(s.spec_board(), spec_start_fen()),
            }
        },
{
    match fen {
        Some(f) => if !board_parse_safe(f) {
            return None;
        },
        None => {},
    }
    Some(board_state_from_cli(fen))
}

} // verus!
