use std::collections::HashMap;

use vstd::prelude::*;
use vstd::std_specs::iter::IteratorSpec;

use crate::chess_calls::{
    board_after_move, board_default, board_fields, board_legal, board_make_move, board_sane, board_squares,
    board_fen_accepted, board_written, builder_placement, color_code, fen_builder_squares, king_code, parsed_board,
    rights_code, spec_board_builder_fields, spec_board_parse_safe,
    spec_builder_accepts, spec_builder_fields_of, spec_builder_fields_text, spec_read_from, spec_reads_back,
    spec_start_fen,
};
use crate::fen_fields::{fields_in_range, lemma_fen_text_fields, lemma_fen_text_read, spec_fen_text};
use crate::game::spec_fen_counters;
use crate::piece::{PieceColor, PieceMeta, PieceType};
use crate::position::{move_code, BoardMove, BoardStatus, CastleRights, Position};
use crate::square::Square;
use crate::text::{decimal, push_decimal, split_on, string_from_chars};

verus! {

broadcast use vstd::std_specs::hash::group_hash_axioms;

/// An entity of the user interface (a tile, a piece image, a hint), by its id.
pub type Entity = u64;

/// The two hint images of a tile: the one shown for a plain move to it and the one shown for
/// a capture on it.
#[derive(Clone, Copy, Debug, PartialEq, Eq, Structural)]
pub struct TileHints {
    pub move_entity: Entity,
    pub capture_entity: Entity,
}

/// Whether the game goes on, and if not, why it ended.
#[derive(Clone, Copy, Debug, PartialEq, Eq, Structural)]
pub enum GameStatus {
    Ongoing,
    GameOverCheckmate,
    GameOverStalemate,
    GameOver50Moves,
    GameOverRepetition,
}

/// The status that the game has on a board with the given engine status, half-move clock and
/// repetition counts: checkmate and stalemate first, then the fifty-move rule (a half-move clock
/// of at least 100), then threefold repetition (a position reached at least three times).
pub open spec fn spec_game_status(status: BoardStatus, half_move_clock: u8, counters: Map<u64, u8>) -> GameStatus {
    match status {
        BoardStatus::Checkmate => GameStatus::GameOverCheckmate,
        BoardStatus::Stalemate => GameStatus::GameOverStalemate,
        BoardStatus::Ongoing => if half_move_clock >= 100 {
            GameStatus::GameOver50Moves
        } else if spec_any_repetition(counters) {
            GameStatus::GameOverRepetition
        } else {
            GameStatus::Ongoing
        },
    }
}

/// The next value of a one-byte visit count, which wraps around after 255.
pub open spec fn spec_next_count(c: u8) -> u8 {
    if c == 255 {
        0
    } else {
        (c + 1) as u8
    }
}

/// Some position has been reached at least three times.
pub open spec fn spec_any_repetition(counters: Map<u64, u8>) -> bool {
    exists|h: u64| counters.contains_key(h) && counters[h] >= 3
}

/// The board text with its last three characters (the crate's move counters "0 1") replaced by
/// the half-move clock and the full-move count.
pub open spec fn spec_fen_with_counters(board_fen: Seq<char>, half_move_clock: nat, full_move_count: nat) -> Seq<char> {
    board_fen.take(board_fen.len() - 3) + decimal(half_move_clock) + seq![' '] + decimal(full_move_count)
}

/// The state of the game board: the chess board itself, the user interface entities placed on
/// each square (tile, highlight, hints, piece), the move counters and how often each position
/// has been reached.
pub struct BoardState {
    status: GameStatus,
    tiles: Vec<Option<Entity>>,
    pieces: Vec<Option<Entity>>,
    highlights: Vec<Option<Entity>>,
    tile_hints: Vec<Option<TileHints>>,
    board: chess::Board,
    position: Position,
    half_move_clock: u8,
    full_move_count: u16,
    piece_state_counters: HashMap<u64, u8>,
}

fn empty_squares<T: Copy>() -> (v: Vec<Option<T>>)
    ensures
        v@ == Seq::new(64, |i: int| None::<T>),
{
    let mut v: Vec<Option<T>> = Vec::new();
    let mut i: usize = 0;
    while i < 64
        invariant
            i <= 64,
            v@ == Seq::new(i as nat, |j: int| None::<T>),
        decreases 64 - i,
    {
        v.push(None);
        i = i + 1;
        assert(v@ =~= Seq::new(i as nat, |j: int| None::<T>));
    }
    v
}

impl BoardState {
    pub closed spec fn spec_status(&self) -> GameStatus {
        self.status
    }

    /// The tile entity of each square, by index.
    pub closed spec fn spec_tiles(&self) -> Seq<Option<Entity>> {
        self.tiles@
    }

    /// The piece entity on each square, by index.
    pub closed spec fn spec_pieces(&self) -> Seq<Option<Entity>> {
        self.pieces@
    }

    /// The highlight entity of each square, by index.
    pub closed spec fn spec_highlights(&self) -> Seq<Option<Entity>> {
        self.highlights@
    }

    /// The hint entities of each square, by index.
    pub closed spec fn spec_tile_hints(&self) -> Seq<Option<TileHints>> {
        self.tile_hints@
    }

    /// The content of the chess board.
    pub closed spec fn spec_position(&self) -> Position {
        self.position
    }

    pub closed spec fn spec_half_move_clock(&self) -> u8 {
        self.half_move_clock
    }

    pub closed spec fn spec_full_move_count(&self) -> u16 {
        self.full_move_count
    }

    /// How often each position (by its hash) has been reached.
    pub closed spec fn spec_counters(&self) -> Map<u64, u8> {
        self.piece_state_counters@
    }

    /// The state is well formed: one entry per square in each table.
    pub closed spec fn wf(&self) -> bool {
        &&& self.tiles@.len() == 64
        &&& self.pieces@.len() == 64
        &&& self.highlights@.len() == 64
        &&& self.tile_hints@.len() == 64
        &&& self.position.wf()
        &&& board_sane(self.board)
        &&& spec_reads_back(self.board)
        &&& self.position.matches_board(self.board)
    }

    /// The chess board.
    pub closed spec fn spec_board(&self) -> chess::Board {
        self.board
    }

    /// A well-formed state holds what its chess board holds.
    pub proof fn lemma_wf_matches_board(&self)
        requires
            self.wf(),
        ensures
            board_sane(self.spec_board()),
            self.spec_position().matches_board(self.spec_board()),
    {
    }

    /// A well-formed state has one tile, piece, highlight and hint entry for each of the 64
    /// squares, and a well-formed position.
    pub proof fn lemma_wf_tables(&self)
        requires
            self.wf(),
        ensures
            self.spec_tiles().len() == 64,
            self.spec_pieces().len() == 64,
            self.spec_highlights().len() == 64,
            self.spec_tile_hints().len() == 64,
            self.spec_position().wf(),
    {
    }

    /// A fresh state for the given board and counters: the game is ongoing, no entity is placed
    /// yet, and the board's position has been reached once.
    pub fn new(board: chess::Board, half_move_clock: u8, full_move_count: u16) -> (s: BoardState)
        requires
            board_sane(board),
            spec_reads_back(board),
        ensures
            s.wf(),
            s.spec_status() == GameStatus::Ongoing,
            s.spec_tiles() == Seq::new(64, |i: int| None::<Entity>),
            s.spec_pieces() == Seq::new(64, |i: int| None::<Entity>),
            s.spec_highlights() == Seq::new(64, |i: int| None::<Entity>),
            s.spec_tile_hints() == Seq::new(64, |i: int| None::<TileHints>),
            s.spec_half_move_clock() == half_move_clock,
            s.spec_full_move_count() == full_move_count,
            s.spec_counters() == Map::<u64, u8>::empty().insert(s.spec_position().hash, 1),
            s.spec_board() == board,
    {
        let position = Position::of(&board);
        let mut counters: HashMap<u64, u8> = HashMap::with_capacity(300);
        counters.insert(position.hash, 1);
        BoardState {
            status: GameStatus::Ongoing,
            tiles: empty_squares(),
            pieces: empty_squares(),
            highlights: empty_squares(),
            tile_hints: empty_squares(),
            board,
            position,
            half_move_clock,
            full_move_count,
            piece_state_counters: counters,
        }
    }

    /// The status of the game.
    pub fn status(&self) -> (s: GameStatus)
        ensures
            s == self.spec_status(),
    {
        self.status
    }

    /// The half-move clock: the half-moves since the last pawn move or capture.
    pub fn half_move_clock(&self) -> (c: u8)
        ensures
            c == self.spec_half_move_clock(),
    {
        self.half_move_clock
    }

    /// The full-move count: one more after each of Black's moves.
    pub fn full_move_count(&self) -> (c: u16)
        ensures
            c == self.spec_full_move_count(),
    {
        self.full_move_count
    }

    /// The game has ended, whatever the reason.
    pub fn is_game_over(&self) -> (b: bool)
        ensures
            b == (self.spec_status() != GameStatus::Ongoing),
    {
        match self.status {
            GameStatus::GameOverCheckmate
            | GameStatus::GameOverStalemate
            | GameStatus::GameOverRepetition
            | GameStatus::GameOver50Moves => true,
            GameStatus::Ongoing => false,
        }
    }

    /// The FEN of the game: the board's placement and fields, as the chess engine writes them,
    /// with the game's half-move clock and full-move count.
    pub open spec fn spec_fen(&self) -> Seq<char> {
        spec_fen_text(
            builder_placement(board_squares(self.spec_board())),
            spec_board_builder_fields(self.spec_board()),
            self.spec_half_move_clock() as nat,
            self.spec_full_move_count() as nat,
        )
    }

    /// What the FEN of a game holds: reading it gives back the squares of the board, its side
    /// to move, castle rights and en passant file, and the game's move counters; the board
    /// builder accepts it.
    pub proof fn lemma_fen_read_back(&self)
        requires
            self.wf(),
        ensures
            spec_builder_accepts(self.spec_fen()),
            fen_builder_squares(self.spec_fen()) == board_squares(self.spec_board()),
            spec_builder_fields_of(self.spec_fen()) == spec_board_builder_fields(self.spec_board()),
            spec_fen_counters(self.spec_fen()) == Some((self.spec_half_move_clock(), self.spec_full_move_count())),
    {
        reveal_strlit("w");
        reveal_strlit("b");
        let b = self.spec_board();
        let p = builder_placement(board_squares(b));
        let f = spec_board_builder_fields(b);
        let pos = self.position;
        assert(fields_in_range(f)) by {
            assert(color_code(pos.side_to_move) == board_fields(b)[0]);
            assert(rights_code(pos.white_castle_rights) == board_fields(b)[1]);
            assert(rights_code(pos.black_castle_rights) == board_fields(b)[2]);
            if let Some(sq) = pos.en_passant {
                crate::square::lemma_square_idx_range(sq);
            }
        }
        lemma_fen_text_read(p, f, self.half_move_clock as nat, self.full_move_count as nat);
        let t = split_on(self.spec_fen(), ' ');
        assert(t[1] =~= "w"@ || t[1] =~= "b"@);
    }

    /// Reading the FEN of a game back gives the game: the chess engine can read it safely and
    /// accepts it, the board it reads is the game's board, and its counters are the game's
    /// (so `parse_fen` of it gives the board and both counters).
    pub proof fn lemma_fen_round_trip(&self)
        requires
            self.wf(),
        ensures
            spec_board_parse_safe(self.spec_fen()),
            board_fen_accepted(self.spec_fen()),
            parsed_board(self.spec_fen()) == self.spec_board(),
            spec_fen_counters(self.spec_fen()) == Some((self.spec_half_move_clock(), self.spec_full_move_count())),
    {
        broadcast use crate::square::lemma_square_idx_range;

        reveal_strlit("0 1");
        reveal_strlit(" ");
        self.lemma_fen_read_back();
        let b = self.spec_board();
        let p = builder_placement(board_squares(b));
        let f = spec_board_builder_fields(b);
        let pos = self.position;
        assert(fields_in_range(f)) by {
            assert(color_code(pos.side_to_move) == board_fields(b)[0]);
            assert(rights_code(pos.white_castle_rights) == board_fields(b)[1]);
            assert(rights_code(pos.black_castle_rights) == board_fields(b)[2]);
        }
        let written = board_written(b);
        assert(decimal(0) =~= seq!['0']);
        assert(decimal(1) =~= seq!['1']);
        assert(written =~= spec_fen_text(p, f, 0, 1));
        lemma_fen_text_fields(p, f, 0, 1);
        lemma_fen_text_fields(p, f, self.half_move_clock as nat, self.full_move_count as nat);
        assert(split_on(written, ' ').take(4) =~= split_on(self.spec_fen(), ' ').take(4));
        let white = board_fields(b)[0] == 0;
        let i = if white { board_fields(b)[4] } else { board_fields(b)[5] };
        assert(0 <= i < 64);
        assert(fen_builder_squares(self.spec_fen())[i] == king_code(
            if spec_builder_fields_of(self.spec_fen())[0] == 0 { PieceColor::White } else { PieceColor::Black },
        ));
    }

    /// The FEN of the game (see `spec_fen`).
    pub fn fen(&self) -> (s: String)
        requires
            self.wf(),
        ensures
            s@ == spec_fen_with_counters(
                self.spec_position().fen@,
                self.spec_half_move_clock() as nat,
                self.spec_full_move_count() as nat,
            ),
            s@ == self.spec_fen(),
            spec_board_parse_safe(s@),
            board_fen_accepted(s@),
            parsed_board(s@) == self.spec_board(),
            spec_fen_counters(s@) == Some((self.spec_half_move_clock(), self.spec_full_move_count())),
    {
        proof {
            self.lemma_fen_round_trip();
        }
        proof {
            reveal_strlit("0 1");
            reveal_strlit(" ");
            let b = self.board;
            let fen = self.position.fen@;
            let head = builder_placement(board_squares(b)) + spec_builder_fields_text(spec_board_builder_fields(b));
            assert(fen =~= head + "0 1"@);
            assert(fen.take(fen.len() - 3) =~= head);
            assert(spec_fen_with_counters(fen, self.half_move_clock as nat, self.full_move_count as nat) =~= self.spec_fen());
        }
        let mut text: Vec<char> = Vec::new();
        let n = self.position.fen.len() - 3;
        let mut i: usize = 0;
        while i < n
            invariant
                n == self.position.fen@.len() - 3,
                i <= n,
                text@ == self.position.fen@.take(i as int),
            decreases n - i,
        {
            text.push(self.position.fen[i]);
            i = i + 1;
            assert(text@ =~= self.position.fen@.take(i as int));
        }
        push_decimal(&mut text, self.half_move_clock as u64);
        text.push(' ');
        push_decimal(&mut text, self.full_move_count as u64);
        let s = string_from_chars(text.as_slice());
        proof {
            assert(s@ == self.spec_fen());
            assert(spec_board_parse_safe(self.spec_fen()));
        }
        s
    }

    /// The content of the chess board.
    pub fn position_ref(&self) -> (p: &Position)
        requires
            self.wf(),
        ensures
            *p == self.spec_position(),
            p.wf(),
    {
        &self.position
    }

    /// The side to move.
    pub fn side_to_move(&self) -> (c: PieceColor)
        ensures
            c == self.spec_position().side_to_move,
    {
        self.position.side_to_move
    }

    /// The color and kind of the piece on a square, if any.
    pub fn get_piece_meta(&self, square: Square) -> (m: Option<PieceMeta>)
        requires
            self.wf(),
        ensures
            m == self.spec_position().piece_at(square),
    {
        self.position.squares[square.to_index() as usize]
    }

    /// The castle rights of the side to move.
    pub fn my_castle_rights(&self) -> (r: CastleRights)
        ensures
            r == self.spec_position().spec_castle_rights(self.spec_position().side_to_move),
    {
        match self.position.side_to_move {
            PieceColor::White => self.position.white_castle_rights,
            PieceColor::Black => self.position.black_castle_rights,
        }
    }

    /// The square of the given side's king.
    pub fn king_square(&self, color: PieceColor) -> (sq: Square)
        ensures
            sq == self.spec_position().spec_king_square(color),
    {
        match color {
            PieceColor::White => self.position.white_king,
            PieceColor::Black => self.position.black_king,
        }
    }

    /// The moving side takes en passant when the destination is the square just beyond the pawn
    /// that can be taken en passant.
    pub open spec fn spec_is_en_passant(&self, color: PieceColor, to_sq: Square) -> bool {
        match self.spec_position().en_passant {
            Some(ep) => ep.spec_forward(color) == Some(to_sq),
            None => false,
        }
    }

    /// A move of the given side to `to_sq` takes a pawn en passant.
    pub fn move_is_en_passant(&self, color: PieceColor, to_sq: Square) -> (b: bool)
        ensures
            b == self.spec_is_en_passant(color, to_sq),
    {
        match self.position.en_passant {
            Some(ep) => match ep.forward(color) {
                Some(sq) => sq == to_sq,
                None => false,
            },
            None => false,
        }
    }

    /// A legal move goes from `source` to `dest`.
    pub open spec fn spec_move_is_valid(&self, source: Square, dest: Square) -> bool {
        exists|k: int|
            0 <= k < self.spec_position().legal_moves@.len()
                && #[trigger] self.spec_position().legal_moves@[k].from == source
                && self.spec_position().legal_moves@[k].to == dest
    }

    /// Some legal move goes from `source` to `dest`.
    pub fn move_is_valid(&self, source: Square, dest: Square) -> (b: bool)
        ensures
            b == self.spec_move_is_valid(source, dest),
    {
        let moves = &self.position.legal_moves;
        let mut k: usize = 0;
        while k < moves.len()
            invariant
                moves == &self.position.legal_moves,
                k <= moves@.len(),
                forall|j: int| 0 <= j < k ==> !(#[trigger] moves@[j].from == source && moves@[j].to == dest),
            decreases moves@.len() - k,
        {
            if moves[k].from == source && moves[k].to == dest {
                return true;
            }
            k = k + 1;
        }
        false
    }

    /// The chess board.
    pub fn board(&self) -> (b: &chess::Board)
        ensures
            *b == self.spec_board(),
    {
        &self.board
    }

    /// Replaces the chess board; nothing else changes.
    pub fn set_board(&mut self, board: &chess::Board)
        requires
            old(self).wf(),
            board_sane(*board),
            spec_reads_back(*board),
        ensures
            final(self).wf(),
            final(self).spec_status() == old(self).spec_status(),
            final(self).spec_tiles() == old(self).spec_tiles(),
            final(self).spec_pieces() == old(self).spec_pieces(),
            final(self).spec_highlights() == old(self).spec_highlights(),
            final(self).spec_tile_hints() == old(self).spec_tile_hints(),
            final(self).spec_half_move_clock() == old(self).spec_half_move_clock(),
            final(self).spec_full_move_count() == old(self).spec_full_move_count(),
            final(self).spec_counters() == old(self).spec_counters(),
            final(self).spec_board() == *board,
    {
        self.board = *board;
        self.position = Position::of(board);
    }

    /// Puts the board back to the starting position and forgets every piece entity.
    pub fn reset(&mut self)
        requires
            old(self).wf(),
        ensures
            final(self).wf(),
            final(self).spec_pieces() == Seq::new(64, |i: int| None::<Entity>),
            final(self).spec_status() == old(self).spec_status(),
            final(self).spec_tiles() == old(self).spec_tiles(),
            final(self).spec_highlights() == old(self).spec_highlights(),
            final(self).spec_tile_hints() == old(self).spec_tile_hints(),
            final(self).spec_half_move_clock() == old(self).spec_half_move_clock(),
            final(self).spec_full_move_count() == old(self).spec_full_move_count(),
            final(self).spec_counters() == old(self).spec_counters(),
            final(self).spec_board() == parsed_board(spec_start_fen()),
            board_squares(final(self).spec_board()) == fen_builder_squares(spec_start_fen()),
            final(self).spec_position().en_passant is None,
    {
        self.clear_pieces();
        let board = board_default();
        self.board = board;
        self.position = Position::of(&board);
    }

    //------------------------------
    // Tiles, highlights, hints and pieces
    //------------------------------

    /// The tile entity of a square; the square must have one.
    pub fn tile(&self, square: Square) -> (e: Entity)
        requires
            self.wf(),
            self.spec_tiles()[square.idx()] is Some,
        ensures
            Some(e) == self.spec_tiles()[square.idx()],
    {
        self.tiles[square.to_index() as usize].unwrap()
    }

    /// Records the tile entity of a square, which must not have one yet.
    pub fn set_tile(&mut self, square: Square, entity: Entity)
        requires
            old(self).wf(),
            old(self).spec_tiles()[square.idx()] is None,
        ensures
            final(self).wf(),
            final(self).spec_tiles() == old(self).spec_tiles().update(square.idx(), Some(entity)),
            final(self).spec_pieces() == old(self).spec_pieces(),
            final(self).spec_highlights() == old(self).spec_highlights(),
            final(self).spec_tile_hints() == old(self).spec_tile_hints(),
            final(self).spec_position() == old(self).spec_position(),
            final(self).spec_status() == old(self).spec_status(),
    {
        self.tiles.set(square.to_index() as usize, Some(entity));
    }

    /// The highlight entity of a square; the square must have one.
    pub fn highlight(&self, square: Square) -> (e: Entity)
        requires
            self.wf(),
            self.spec_highlights()[square.idx()] is Some,
        ensures
            Some(e) == self.spec_highlights()[square.idx()],
    {
        self.highlights[square.to_index() as usize].unwrap()
    }

    /// Records the highlight entity of a square, which must not have one yet.
    pub fn set_highlight(&mut self, square: Square, entity: Entity)
        requires
            old(self).wf(),
            old(self).spec_highlights()[square.idx()] is None,
        ensures
            final(self).wf(),
            final(self).spec_highlights() == old(self).spec_highlights().update(square.idx(), Some(entity)),
            final(self).spec_tiles() == old(self).spec_tiles(),
            final(self).spec_pieces() == old(self).spec_pieces(),
            final(self).spec_tile_hints() == old(self).spec_tile_hints(),
            final(self).spec_position() == old(self).spec_position(),
            final(self).spec_status() == old(self).spec_status(),
    {
        self.highlights.set(square.to_index() as usize, Some(entity));
    }

    /// The hint entities of a square; the square must have them.
    pub fn tile_hints(&self, square: Square) -> (h: TileHints)
        requires
            self.wf(),
            self.spec_tile_hints()[square.idx()] is Some,
        ensures
            Some(h) == self.spec_tile_hints()[square.idx()],
    {
        self.tile_hints[square.to_index() as usize].unwrap()
    }

    /// Records the hint entities of a square, which must not have them yet.
    pub fn set_tile_hints(&mut self, square: Square, hints: TileHints)
        requires
            old(self).wf(),
            old(self).spec_tile_hints()[square.idx()] is None,
        ensures
            final(self).wf(),
            final(self).spec_tile_hints() == old(self).spec_tile_hints().update(square.idx(), Some(hints)),
            final(self).spec_tiles() == old(self).spec_tiles(),
            final(self).spec_pieces() == old(self).spec_pieces(),
            final(self).spec_highlights() == old(self).spec_highlights(),
            final(self).spec_position() == old(self).spec_position(),
            final(self).spec_status() == old(self).spec_status(),
    {
        self.tile_hints.set(square.to_index() as usize, Some(hints));
    }

    /// A piece entity stands on the square.
    pub fn has_piece_at(&self, square: Square) -> (b: bool)
        requires
            self.wf(),
        ensures
            b == self.spec_pieces()[square.idx()] is Some,
    {
        self.pieces[square.to_index() as usize].is_some()
    }

    /// The piece entity on a square; the square must have one.
    pub fn piece(&self, square: Square) -> (e: Entity)
        requires
            self.wf(),
            self.spec_pieces()[square.idx()] is Some,
        ensures
            Some(e) == self.spec_pieces()[square.idx()],
    {
        self.pieces[square.to_index() as usize].unwrap()
    }

    /// The piece entity on a square, if any.
    pub fn get_piece(&self, square: Square) -> (e: Option<Entity>)
        requires
            self.wf(),
        ensures
            e == self.spec_pieces()[square.idx()],
    {
        self.pieces[square.to_index() as usize]
    }

    /// Records the piece entity on a square, which must not have one yet.
    pub fn set_piece(&mut self, square: Square, piece: Entity)
        requires
            old(self).wf(),
            old(self).spec_pieces()[square.idx()] is None,
        ensures
            final(self).wf(),
            final(self).spec_pieces() == old(self).spec_pieces().update(square.idx(), Some(piece)),
            final(self).spec_tiles() == old(self).spec_tiles(),
            final(self).spec_highlights() == old(self).spec_highlights(),
            final(self).spec_tile_hints() == old(self).spec_tile_hints(),
            final(self).spec_position() == old(self).spec_position(),
            final(self).spec_status() == old(self).spec_status(),
            final(self).spec_half_move_clock() == old(self).spec_half_move_clock(),
            final(self).spec_full_move_count() == old(self).spec_full_move_count(),
            final(self).spec_counters() == old(self).spec_counters(),
    {
        self.pieces.set(square.to_index() as usize, Some(piece));
    }

    /// Forgets every piece entity.
    pub fn clear_pieces(&mut self)
        requires
            old(self).wf(),
        ensures
            final(self).wf(),
            final(self).spec_pieces() == Seq::new(64, |i: int| None::<Entity>),
            final(self).spec_tiles() == old(self).spec_tiles(),
            final(self).spec_highlights() == old(self).spec_highlights(),
            final(self).spec_tile_hints() == old(self).spec_tile_hints(),
            final(self).spec_position() == old(self).spec_position(),
            final(self).spec_status() == old(self).spec_status(),
            final(self).spec_half_move_clock() == old(self).spec_half_move_clock(),
            final(self).spec_full_move_count() == old(self).spec_full_move_count(),
            final(self).spec_counters() == old(self).spec_counters(),
    {
        self.pieces = empty_squares();
    }
}


//==================================================
// Core game logic
//==================================================

/// The hint entities shown for the legal moves from `source`: first the capture hint of each
/// destination held by the opponent of the side to move, then the move hint of every other
/// destination, each group in the order of the legal moves.
pub open spec fn spec_valid_move_hints(p: Position, hints: Seq<Option<TileHints>>, source: Square) -> Seq<Entity> {
    spec_capture_hints(p, hints, source, p.legal_moves@.len() as int) + spec_plain_move_hints(
        p,
        hints,
        source,
        p.legal_moves@.len() as int,
    )
}

/// The destination of the move holds a piece of the opponent of the side to move.
pub open spec fn spec_is_capture_dest(p: Position, m: BoardMove) -> bool {
    p.piece_at(m.to) matches Some(meta) && meta.color == p.side_to_move.opponent()
}

/// The capture hints of the first `n` legal moves from `source`.
pub open spec fn spec_capture_hints(p: Position, hints: Seq<Option<TileHints>>, source: Square, n: int) -> Seq<Entity>
    decreases n,
{
    if n <= 0 {
        Seq::empty()
    } else {
        let rest = spec_capture_hints(p, hints, source, n - 1);
        let m = p.legal_moves@[n - 1];
        if m.from == source && spec_is_capture_dest(p, m) {
            rest.push(hints[m.to.idx()].unwrap().capture_entity)
        } else {
            rest
        }
    }
}

/// The move hints of the first `n` legal moves from `source` that are not captures.
pub open spec fn spec_plain_move_hints(p: Position, hints: Seq<Option<TileHints>>, source: Square, n: int) -> Seq<Entity>
    decreases n,
{
    if n <= 0 {
        Seq::empty()
    } else {
        let rest = spec_plain_move_hints(p, hints, source, n - 1);
        let m = p.legal_moves@[n - 1];
        if m.from == source && !spec_is_capture_dest(p, m) {
            rest.push(hints[m.to.idx()].unwrap().move_entity)
        } else {
            rest
        }
    }
}

impl BoardState {
    /// Every legal move from `source` lands on a square that has hint entities.
    pub open spec fn spec_hints_cover_moves_from(&self, source: Square) -> bool {
        forall|k: int|
            0 <= k < self.spec_position().legal_moves@.len() && (#[trigger] self.spec_position().legal_moves@[k]).from == source
                ==> self.spec_tile_hints()[self.spec_position().legal_moves@[k].to.idx()] is Some
    }

    /// The hint entities to show for the piece on `source`: a capture hint on each square where
    /// it can take an opposing piece, a move hint on each other square it can move to.
    pub fn calculate_valid_moves(&self, source: Square) -> (moves: Vec<Entity>)
        requires
            self.wf(),
            self.spec_hints_cover_moves_from(source),
        ensures
            moves@ == spec_valid_move_hints(self.spec_position(), self.spec_tile_hints(), source),
            spec_hints_of_moves_from(self.spec_position(), self.spec_tile_hints(), source, moves@),
    {
        let p = &self.position;
        let opponent = p.side_to_move.not();
        let mut captures: Vec<Entity> = Vec::new();
        let mut plain: Vec<Entity> = Vec::new();
        let mut k: usize = 0;
        while k < p.legal_moves.len()
            invariant
                self.wf(),
                p == &self.position,
                opponent == p.side_to_move.opponent(),
                self.spec_hints_cover_moves_from(source),
                k <= p.legal_moves@.len(),
                captures@ == spec_capture_hints(*p, self.tile_hints@, source, k as int),
                plain@ == spec_plain_move_hints(*p, self.tile_hints@, source, k as int),
            decreases p.legal_moves@.len() - k,
        {
            let m = p.legal_moves[k];
            if m.from == source {
                let hints = self.tile_hints[m.to.to_index() as usize].unwrap();
                let is_capture = match p.squares[m.to.to_index() as usize] {
                    Some(meta) => meta.color == opponent,
                    None => false,
                };
                if is_capture {
                    captures.push(hints.capture_entity);
                } else {
                    plain.push(hints.move_entity);
                }
            }
            k = k + 1;
        }
        let mut j: usize = 0;
        let ghost first = captures@;
        while j < plain.len()
            invariant
                j <= plain@.len(),
                captures@ == first + plain@.take(j as int),
            decreases plain@.len() - j,
        {
            captures.push(plain[j]);
            j = j + 1;
            assert(captures@ =~= first + plain@.take(j as int));
        }
        assert(plain@.take(plain@.len() as int) =~= plain@);
        proof {
            lemma_hints_come_from_the_selected_piece(self.position, self.tile_hints@, source);
        }
        captures
    }

    /// Some position has been reached at least three times.
    fn is_game_over_repetition(&self) -> (b: bool)
        ensures
            b == spec_any_repetition(self.spec_counters()),
            b <==> exists|h: u64| #[trigger] self.spec_counters().contains_key(h) && self.spec_counters()[h] >= 3,
    {
        let ghost m = self.piece_state_counters@;
        let ghost total = vstd::std_specs::hash::spec_values_iter(&self.piece_state_counters).remaining();
        proof {
            assert(total.unref().to_set() == m.values());
        }
        let ghost mut seen: Seq<u8> = Seq::empty();
        for v in it: self.piece_state_counters.values()
            invariant
                m == self.piece_state_counters@,
                it.seq() == total,
                total.unref().to_set() == m.values(),
                seen == total.take(it.index()).unref(),
                forall|j: int| 0 <= j < seen.len() ==> #[trigger] seen[j] < 3,
        {
            if *v >= 3 {
                proof {
                    assert(total.unref()[it.index()] == *v);
                    assert(total.unref().to_set().contains(*v));
                }
                return true;
            }
            proof {
                seen = seen.push(*v);
                assert(seen =~= total.take(it.index() + 1).unref());
            }
        }
        proof {
            assert(seen =~= total.unref());
            assert forall|h: u64| m.contains_key(h) implies m[h] < 3 by {
                assert(m.values().contains(m[h]));
                assert(seen.to_set().contains(m[h]));
                let j = choose|j: int| 0 <= j < seen.len() && seen[j] == m[h];
                assert(seen[j] < 3);
            }
        }
        false
    }

    /// Sets the status of the game from the board: checkmate or stalemate when the side to move
    /// cannot move, else game over by the fifty-move rule when the half-move clock has reached
    /// 100, else game over by repetition when a position has been reached three times, else
    /// ongoing.
    pub fn sync_status(&mut self)
        requires
            old(self).wf(),
        ensures
            final(self).wf(),
            final(self).spec_status() == spec_game_status(
                old(self).spec_position().status,
                old(self).spec_half_move_clock(),
                old(self).spec_counters(),
            ),
            final(self).spec_tiles() == old(self).spec_tiles(),
            final(self).spec_pieces() == old(self).spec_pieces(),
            final(self).spec_highlights() == old(self).spec_highlights(),
            final(self).spec_tile_hints() == old(self).spec_tile_hints(),
            final(self).spec_position() == old(self).spec_position(),
            final(self).spec_half_move_clock() == old(self).spec_half_move_clock(),
            final(self).spec_full_move_count() == old(self).spec_full_move_count(),
            final(self).spec_counters() == old(self).spec_counters(),
            final(self).spec_board() == old(self).spec_board(),
            final(self).spec_status() == GameStatus::GameOverRepetition ==> exists|h: u64|
                #[trigger] old(self).spec_counters().contains_key(h) && old(self).spec_counters()[h] >= 3,
            (old(self).spec_position().status == BoardStatus::Ongoing && old(self).spec_half_move_clock() < 100
                && forall|h: u64| #[trigger] old(self).spec_counters().contains_key(h) ==> old(self).spec_counters()[h]
                <= 2) ==> final(self).spec_status() == GameStatus::Ongoing,
    {
        proof {
            lemma_repetition_rule(self.position.status, self.half_move_clock, self.piece_state_counters@);
        }
        self.status = match self.position.status {
            BoardStatus::Checkmate => GameStatus::GameOverCheckmate,
            BoardStatus::Stalemate => GameStatus::GameOverStalemate,
            BoardStatus::Ongoing => if self.half_move_clock >= 100 {
                GameStatus::GameOver50Moves
            } else if self.is_game_over_repetition() {
                GameStatus::GameOverRepetition
            } else {
                GameStatus::Ongoing
            },
        };
    }

    /// The move may be made on the board: it is one of the position's legal moves.
    pub open spec fn spec_move_makeable(&self, from_sq: Square, to_sq: Square, promotion: Option<PieceType>) -> bool {
        self.spec_position().legal_moves@.contains(BoardMove { from: from_sq, to: to_sq, promotion })
    }

    /// Whether the move is one of the position's legal moves.
    pub fn move_is_legal(&self, from_sq: Square, to_sq: Square, promotion: Option<PieceType>) -> (b: bool)
        requires
            self.wf(),
        ensures
            b == self.spec_move_makeable(from_sq, to_sq, promotion),
    {
        let moves = &self.position.legal_moves;
        let target = BoardMove { from: from_sq, to: to_sq, promotion };
        let mut k: usize = 0;
        while k < moves.len()
            invariant
                k <= moves@.len(),
                moves@ == self.spec_position().legal_moves@,
                target == (BoardMove { from: from_sq, to: to_sq, promotion }),
                forall|j: int| 0 <= j < k ==> moves@[j] != target,
            decreases moves@.len() - k,
        {
            if moves[k] == target {
                assert(moves@[k as int] == target);
                return true;
            }
            k = k + 1;
        }
        false
    }

    /// Makes the move on the chess board and counts one more visit of the resulting position.
    /// The count wraps around after 255, as the counter is a byte.
    pub fn make_board_move(&mut self, from_sq: Square, to_sq: Square, promotion: Option<PieceType>)
        requires
            old(self).wf(),
            old(self).spec_move_makeable(from_sq, to_sq, promotion),
        ensures
            final(self).wf(),
            final(self).spec_counters() == old(self).spec_counters().insert(
                final(self).spec_position().hash,
                if old(self).spec_counters().contains_key(final(self).spec_position().hash) {
                    spec_next_count(old(self).spec_counters()[final(self).spec_position().hash])
                } else {
                    1u8
                },
            ),
            final(self).spec_status() == old(self).spec_status(),
            final(self).spec_tiles() == old(self).spec_tiles(),
            final(self).spec_pieces() == old(self).spec_pieces(),
            final(self).spec_highlights() == old(self).spec_highlights(),
            final(self).spec_tile_hints() == old(self).spec_tile_hints(),
            final(self).spec_half_move_clock() == old(self).spec_half_move_clock(),
            final(self).spec_full_move_count() == old(self).spec_full_move_count(),
            final(self).spec_board() == board_after_move(
                old(self).spec_board(),
                move_code(BoardMove { from: from_sq, to: to_sq, promotion }),
            ),
            final(self).spec_position().side_to_move == old(self).spec_position().side_to_move.opponent(),
            final(self).spec_position().piece_at(from_sq) is None,
            final(self).spec_position().piece_at(to_sq) == match promotion {
                Some(t) => Some(PieceMeta { color: old(self).spec_position().side_to_move, typ: t }),
                None => old(self).spec_position().piece_at(from_sq),
            },
    {
        let mv = BoardMove { from: from_sq, to: to_sq, promotion };
        proof {
            let moves = self.position.legal_moves@;
            let k = choose|k: int| 0 <= k < moves.len() && moves[k] == mv;
            assert(moves.map_values(|m: BoardMove| move_code(m))[k] == move_code(mv));
        }
        let ghost old_board = self.board;
        let ghost old_position = self.position;
        let board = board_make_move(&self.board, mv);
        self.board = board;
        self.position = Position::of(&board);
        proof {
            let f0 = board_fields(old_board)[0];
            assert(old_position.squares@[from_sq.idx()] == crate::position::spec_decode_piece(
                board_squares(old_board)[from_sq.idx()],
            ));
            assert(self.position.squares@[from_sq.idx()] == crate::position::spec_decode_piece(
                board_squares(board)[from_sq.idx()],
            ));
            assert(self.position.squares@[to_sq.idx()] == crate::position::spec_decode_piece(
                board_squares(board)[to_sq.idx()],
            ));
            if let Some(t) = promotion {
                let c = 1 + t.idx() + 6 * f0;
                assert((c - 1) % 6 == t.idx()) by {
                    vstd::arithmetic::div_mod::lemma_fundamental_div_mod_converse(c - 1, 6, f0, t.idx());
                }
            }
        }
        let hash = self.position.hash;
        let count: u8 = match self.piece_state_counters.get(&hash) {
            Some(c) => if *c == 255 {
                0
            } else {
                *c + 1
            },
            None => 1,
        };
        self.piece_state_counters.insert(hash, count);
    }

    /// Adds one to the half-move clock.
    pub fn inc_half_move_clock(&mut self)
        requires
            old(self).spec_half_move_clock() < 255,
        ensures
            final(self).spec_half_move_clock() == old(self).spec_half_move_clock() + 1,
            final(self).wf() == old(self).wf(),
            final(self).spec_status() == old(self).spec_status(),
            final(self).spec_tiles() == old(self).spec_tiles(),
            final(self).spec_pieces() == old(self).spec_pieces(),
            final(self).spec_highlights() == old(self).spec_highlights(),
            final(self).spec_tile_hints() == old(self).spec_tile_hints(),
            final(self).spec_position() == old(self).spec_position(),
            final(self).spec_full_move_count() == old(self).spec_full_move_count(),
            final(self).spec_counters() == old(self).spec_counters(),
            final(self).spec_board() == old(self).spec_board(),
    {
        self.half_move_clock = self.half_move_clock + 1;
    }

    /// Sets the half-move clock back to zero.
    pub fn reset_half_move_clock(&mut self)
        ensures
            final(self).spec_half_move_clock() == 0,
            final(self).wf() == old(self).wf(),
            final(self).spec_status() == old(self).spec_status(),
            final(self).spec_tiles() == old(self).spec_tiles(),
            final(self).spec_pieces() == old(self).spec_pieces(),
            final(self).spec_highlights() == old(self).spec_highlights(),
            final(self).spec_tile_hints() == old(self).spec_tile_hints(),
            final(self).spec_position() == old(self).spec_position(),
            final(self).spec_full_move_count() == old(self).spec_full_move_count(),
            final(self).spec_counters() == old(self).spec_counters(),
            final(self).spec_board() == old(self).spec_board(),
    {
        self.half_move_clock = 0;
    }

    /// Adds one to the full-move count.
    pub fn inc_full_move_count(&mut self)
        requires
            old(self).spec_full_move_count() < 65535,
        ensures
            final(self).spec_full_move_count() == old(self).spec_full_move_count() + 1,
            final(self).wf() == old(self).wf(),
            final(self).spec_status() == old(self).spec_status(),
            final(self).spec_tiles() == old(self).spec_tiles(),
            final(self).spec_pieces() == old(self).spec_pieces(),
            final(self).spec_highlights() == old(self).spec_highlights(),
            final(self).spec_tile_hints() == old(self).spec_tile_hints(),
            final(self).spec_position() == old(self).spec_position(),
            final(self).spec_half_move_clock() == old(self).spec_half_move_clock(),
            final(self).spec_counters() == old(self).spec_counters(),
            final(self).spec_board() == old(self).spec_board(),
    {
        self.full_move_count = self.full_move_count + 1;
    }

    /// The piece entities after a piece of the given side moves from `from_sq` to `to_sq`, and
    /// the entity it takes, if any: en passant, the pawn behind the destination is taken; else
    /// whatever stood on the destination.
    pub open spec fn spec_update_piece(&self, color: PieceColor, from_sq: Square, to_sq: Square) -> (Seq<Option<Entity>>, Option<Entity>) {
        let piece = self.spec_pieces()[from_sq.idx()];
        let lifted = self.spec_pieces().update(from_sq.idx(), None);
        if self.spec_is_en_passant(color, to_sq) {
            let ep = self.spec_position().en_passant.unwrap();
            let placed = lifted.update(to_sq.idx(), piece);
            (placed.update(ep.idx(), None), placed[ep.idx()])
        } else {
            (lifted.update(to_sq.idx(), piece), lifted[to_sq.idx()])
        }
    }

    /// Moves the piece entity of the given side from `from_sq` to `to_sq` and returns the
    /// entity it takes, if any (for en passant, the pawn behind the destination). The source must
    /// hold a piece entity.
    pub fn update_piece(&mut self, color: PieceColor, from_sq: Square, to_sq: Square) -> (captured: Option<Entity>)
        requires
            old(self).wf(),
            old(self).spec_pieces()[from_sq.idx()] is Some,
        ensures
            final(self).wf(),
            (final(self).spec_pieces(), captured) == old(self).spec_update_piece(color, from_sq, to_sq),
            final(self).spec_status() == old(self).spec_status(),
            final(self).spec_tiles() == old(self).spec_tiles(),
            final(self).spec_highlights() == old(self).spec_highlights(),
            final(self).spec_tile_hints() == old(self).spec_tile_hints(),
            final(self).spec_position() == old(self).spec_position(),
            final(self).spec_half_move_clock() == old(self).spec_half_move_clock(),
            final(self).spec_full_move_count() == old(self).spec_full_move_count(),
            final(self).spec_counters() == old(self).spec_counters(),
    {
        let from = from_sq.to_index() as usize;
        let to = to_sq.to_index() as usize;
        let piece = self.pieces[from];
        self.pieces.set(from, None);
        if self.move_is_en_passant(color, to_sq) {
            let ep = self.position.en_passant.unwrap().to_index() as usize;
            self.pieces.set(to, piece);
            let taken = self.pieces[ep];
            self.pieces.set(ep, None);
            taken
        } else {
            let taken = self.pieces[to];
            self.pieces.set(to, piece);
            taken
        }
    }
}


/// The game ends by repetition only when some position has been reached at least three times,
/// and only when neither side is mated or stalemated and the fifty-move rule has not struck;
/// an ongoing board with a half-move clock below 100 on which no position has been reached more
/// than twice is an ongoing game.
pub proof fn lemma_repetition_rule(status: BoardStatus, half_move_clock: u8, counters: Map<u64, u8>)
    ensures
        spec_game_status(status, half_move_clock, counters) == GameStatus::GameOverRepetition ==> {
            &&& status == BoardStatus::Ongoing
            &&& half_move_clock < 100
            &&& exists|h: u64| #[trigger] counters.contains_key(h) && counters[h] >= 3
        },
        (status == BoardStatus::Ongoing && half_move_clock < 100 && forall|h: u64|
            #[trigger] counters.contains_key(h) ==> counters[h] <= 2) ==> spec_game_status(
            status,
            half_move_clock,
            counters,
        ) == GameStatus::Ongoing,
        status == BoardStatus::Ongoing && half_move_clock >= 100 ==> spec_game_status(status, half_move_clock, counters)
            == GameStatus::GameOver50Moves,
        status == BoardStatus::Checkmate ==> spec_game_status(status, half_move_clock, counters)
            == GameStatus::GameOverCheckmate,
        status == BoardStatus::Stalemate ==> spec_game_status(status, half_move_clock, counters)
            == GameStatus::GameOverStalemate,
{
}

/// Each capture hint among the first `n` legal moves belongs to the destination of a legal move
/// from `source` that takes a piece.
proof fn lemma_capture_hints_from_source(p: Position, hints: Seq<Option<TileHints>>, source: Square, n: int)
    requires
        0 <= n <= p.legal_moves@.len(),
    ensures
        forall|j: int| #![trigger spec_capture_hints(p, hints, source, n)[j]]
            0 <= j < spec_capture_hints(p, hints, source, n).len() ==> exists|k: int|
            0 <= k < n && (#[trigger] p.legal_moves@[k]).from == source && p.piece_at(p.legal_moves@[k].to) is Some
                && spec_capture_hints(p, hints, source, n)[j] == hints[p.legal_moves@[k].to.idx()].unwrap().capture_entity,
    decreases n,
{
    if n > 0 {
        lemma_capture_hints_from_source(p, hints, source, n - 1);
        let rest = spec_capture_hints(p, hints, source, n - 1);
        let all = spec_capture_hints(p, hints, source, n);
        assert forall|j: int| #![trigger all[j]] 0 <= j < all.len() implies exists|k: int|
            0 <= k < n && (#[trigger] p.legal_moves@[k]).from == source && p.piece_at(p.legal_moves@[k].to) is Some
                && all[j] == hints[p.legal_moves@[k].to.idx()].unwrap().capture_entity by {
            if j < rest.len() {
                assert(all[j] == rest[j]);
                let k = choose|k: int|
                    0 <= k < n - 1 && (#[trigger] p.legal_moves@[k]).from == source && p.piece_at(p.legal_moves@[k].to) is Some
                        && rest[j] == hints[p.legal_moves@[k].to.idx()].unwrap().capture_entity;
                assert(p.legal_moves@[k].from == source);
            } else {
                assert(p.legal_moves@[n - 1].from == source);
            }
        }
    }
}

/// Each move hint among the first `n` legal moves belongs to the destination of a legal move
/// from `source` that takes nothing.
proof fn lemma_plain_hints_from_source(p: Position, hints: Seq<Option<TileHints>>, source: Square, n: int)
    requires
        0 <= n <= p.legal_moves@.len(),
    ensures
        forall|j: int| #![trigger spec_plain_move_hints(p, hints, source, n)[j]]
            0 <= j < spec_plain_move_hints(p, hints, source, n).len() ==> exists|k: int|
            0 <= k < n && (#[trigger] p.legal_moves@[k]).from == source
                && spec_plain_move_hints(p, hints, source, n)[j] == hints[p.legal_moves@[k].to.idx()].unwrap().move_entity,
    decreases n,
{
    if n > 0 {
        lemma_plain_hints_from_source(p, hints, source, n - 1);
        let rest = spec_plain_move_hints(p, hints, source, n - 1);
        let all = spec_plain_move_hints(p, hints, source, n);
        assert forall|j: int| #![trigger all[j]] 0 <= j < all.len() implies exists|k: int|
            0 <= k < n && (#[trigger] p.legal_moves@[k]).from == source
                && all[j] == hints[p.legal_moves@[k].to.idx()].unwrap().move_entity by {
            if j < rest.len() {
                assert(all[j] == rest[j]);
                let k = choose|k: int|
                    0 <= k < n - 1 && (#[trigger] p.legal_moves@[k]).from == source
                        && rest[j] == hints[p.legal_moves@[k].to.idx()].unwrap().move_entity;
                assert(p.legal_moves@[k].from == source);
            } else {
                assert(p.legal_moves@[n - 1].from == source);
            }
        }
    }
}

/// Each of the hints belongs to a legal move from `source`: it is the capture hint of the
/// destination of such a move onto a piece, or the move hint of the destination of such a move.
pub open spec fn spec_hints_of_moves_from(p: Position, hints: Seq<Option<TileHints>>, source: Square, shown: Seq<Entity>) -> bool {
    forall|j: int| 0 <= j < shown.len() ==> #[trigger] spec_hint_at(p, hints, source, shown, j)
}

/// The hint at index `j` belongs to some legal move from `source` (see `spec_hint_of_move`).
pub open spec fn spec_hint_at(p: Position, hints: Seq<Option<TileHints>>, source: Square, shown: Seq<Entity>, j: int) -> bool {
    exists|k: int| #[trigger] spec_hint_of_move(p, hints, source, k, shown[j])
}

/// The hint is the capture hint of the destination of legal move `k`, which goes from `source`
/// onto a piece, or the move hint of the destination of that move.
pub open spec fn spec_hint_of_move(p: Position, hints: Seq<Option<TileHints>>, source: Square, k: int, hint: Entity) -> bool {
    &&& 0 <= k < p.legal_moves@.len()
    &&& p.legal_moves@[k].from == source
    &&& {
        ||| p.piece_at(p.legal_moves@[k].to) is Some && hint == hints[p.legal_moves@[k].to.idx()].unwrap().capture_entity
        ||| hint == hints[p.legal_moves@[k].to.idx()].unwrap().move_entity
    }
}

/// The hints shown for a selected piece come from its own legal moves only: each is the capture
/// hint of the destination of a legal move from the selected square onto a piece, or the move
/// hint of the destination of a legal move from that square.
pub proof fn lemma_hints_come_from_the_selected_piece(p: Position, hints: Seq<Option<TileHints>>, source: Square)
    ensures
        spec_hints_of_moves_from(p, hints, source, spec_valid_move_hints(p, hints, source)),
{
    let n = p.legal_moves@.len() as int;
    lemma_capture_hints_from_source(p, hints, source, n);
    lemma_plain_hints_from_source(p, hints, source, n);
    let c = spec_capture_hints(p, hints, source, n);
    let m = spec_plain_move_hints(p, hints, source, n);
    let all = spec_valid_move_hints(p, hints, source);
    assert forall|j: int| 0 <= j < all.len() implies #[trigger] spec_hint_at(p, hints, source, all, j) by {
        if j < c.len() {
            assert(all[j] == c[j]);
            let k = choose|k: int|
                0 <= k < n && (#[trigger] p.legal_moves@[k]).from == source && p.piece_at(p.legal_moves@[k].to) is Some
                    && c[j] == hints[p.legal_moves@[k].to.idx()].unwrap().capture_entity;
            assert(spec_hint_of_move(p, hints, source, k, all[j]));
            assert(spec_hint_at(p, hints, source, all, j));
        } else {
            assert(all[j] == m[j - c.len()]);
            let k = choose|k: int|
                0 <= k < n && (#[trigger] p.legal_moves@[k]).from == source
                    && m[j - c.len()] == hints[p.legal_moves@[k].to.idx()].unwrap().move_entity;
            assert(spec_hint_of_move(p, hints, source, k, all[j]));
            assert(spec_hint_at(p, hints, source, all, j));
        }
    }
    assert(spec_hints_of_moves_from(p, hints, source, all));
}

/// Each visit of a position adds one to its count (the count is a byte and wraps after 255), and
/// a position not reached before is counted once.
pub proof fn lemma_visit_count_rule(c: u8)
    ensures
        c < 255 ==> spec_next_count(c) == c + 1,
        spec_next_count(c) != c,
{
}

/// Every legal move from the selected square shows a hint: the capture hint of its destination
/// when that holds a piece of the opponent, else the move hint.
pub proof fn lemma_every_move_from_source_is_hinted(p: Position, hints: Seq<Option<TileHints>>, source: Square, k: int)
    requires
        0 <= k < p.legal_moves@.len(),
        p.legal_moves@[k].from == source,
    ensures
        spec_valid_move_hints(p, hints, source).contains(
            if spec_is_capture_dest(p, p.legal_moves@[k]) {
                hints[p.legal_moves@[k].to.idx()].unwrap().capture_entity
            } else {
                hints[p.legal_moves@[k].to.idx()].unwrap().move_entity
            },
        ),
{
    let n = p.legal_moves@.len() as int;
    let m = p.legal_moves@[k];
    lemma_hint_kept(p, hints, source, k, n);
    let c = spec_capture_hints(p, hints, source, n);
    let pl = spec_plain_move_hints(p, hints, source, n);
    let all = spec_valid_move_hints(p, hints, source);
    if spec_is_capture_dest(p, m) {
        let j = choose|j: int| 0 <= j < c.len() && c[j] == hints[m.to.idx()].unwrap().capture_entity;
        assert(all[j] == c[j]);
    } else {
        let j = choose|j: int| 0 <= j < pl.len() && pl[j] == hints[m.to.idx()].unwrap().move_entity;
        assert(all[c.len() + j] == pl[j]);
    }
}

/// The hint of legal move `k` from `source` is among the hints of the first `n` moves, for
/// `n` past `k`.
proof fn lemma_hint_kept(p: Position, hints: Seq<Option<TileHints>>, source: Square, k: int, n: int)
    requires
        0 <= k < n <= p.legal_moves@.len(),
        p.legal_moves@[k].from == source,
    ensures
        spec_is_capture_dest(p, p.legal_moves@[k]) ==> spec_capture_hints(p, hints, source, n).contains(
            hints[p.legal_moves@[k].to.idx()].unwrap().capture_entity,
        ),
        !spec_is_capture_dest(p, p.legal_moves@[k]) ==> spec_plain_move_hints(p, hints, source, n).contains(
            hints[p.legal_moves@[k].to.idx()].unwrap().move_entity,
        ),
    decreases n,
{
    let m = p.legal_moves@[k];
    let c = spec_capture_hints(p, hints, source, n);
    let pl = spec_plain_move_hints(p, hints, source, n);
    if k == n - 1 {
        if spec_is_capture_dest(p, m) {
            assert(c[c.len() - 1] == hints[m.to.idx()].unwrap().capture_entity);
        } else {
            assert(pl[pl.len() - 1] == hints[m.to.idx()].unwrap().move_entity);
        }
    } else {
        lemma_hint_kept(p, hints, source, k, n - 1);
        let c0 = spec_capture_hints(p, hints, source, n - 1);
        let p0 = spec_plain_move_hints(p, hints, source, n - 1);
        if spec_is_capture_dest(p, m) {
            let j = choose|j: int| 0 <= j < c0.len() && c0[j] == hints[m.to.idx()].unwrap().capture_entity;
            assert(c[j] == c0[j]);
        } else {
            let j = choose|j: int| 0 <= j < p0.len() && p0[j] == hints[m.to.idx()].unwrap().move_entity;
            assert(pl[j] == p0[j]);
        }
    }
}
} // verus!
