use vstd::prelude::*;

use crate::chess_calls::{
    board_castle_rights, board_checkers, board_color_on, board_en_passant, board_fields, board_hash,
    board_king_square, board_legal, board_legal_moves, board_piece_on, board_sane, board_side_to_move,
    board_squares, board_status, board_to_fen, builder_placement, placement_char, placement_squares, code_color, king_code, code_kind, color_code, rights_code,
    spec_board_builder_fields, spec_builder_fields_text, spec_builder_tail, status_code,
};
use crate::piece::{PieceColor, PieceMeta, PieceType};
use crate::square::Square;
use crate::text::{str_chars, string_from_chars};

verus! {

/// What castling a side may still do.
#[derive(Clone, Copy, Debug, PartialEq, Eq, Structural)]
pub enum CastleRights {
    NoRights,
    KingSide,
    QueenSide,
    Both,
}

impl CastleRights {
    pub open spec fn spec_has_kingside(self) -> bool {
        self == CastleRights::KingSide || self == CastleRights::Both
    }

    pub open spec fn spec_has_queenside(self) -> bool {
        self == CastleRights::QueenSide || self == CastleRights::Both
    }

    /// The side may still castle on the king's side.
    pub fn has_kingside(self) -> (b: bool)
        ensures
            b == self.spec_has_kingside(),
    {
        match self {
            CastleRights::KingSide | CastleRights::Both => true,
            _ => false,
        }
    }

    /// The side may still castle on the queen's side.
    pub fn has_queenside(self) -> (b: bool)
        ensures
            b == self.spec_has_queenside(),
    {
        match self {
            CastleRights::QueenSide | CastleRights::Both => true,
            _ => false,
        }
    }

    /// The rights made of the two flags.
    pub open spec fn spec_from_flags(kingside: bool, queenside: bool) -> CastleRights {
        if kingside && queenside {
            CastleRights::Both
        } else if kingside {
            CastleRights::KingSide
        } else if queenside {
            CastleRights::QueenSide
        } else {
            CastleRights::NoRights
        }
    }
}

/// Castle rights and their two flags determine each other: the rights made of two flags have
/// exactly those flags, and any rights are made of their own flags.
pub proof fn lemma_castle_rights_flags(kingside: bool, queenside: bool, rights: CastleRights)
    ensures
        CastleRights::spec_from_flags(kingside, queenside).spec_has_kingside() == kingside,
        CastleRights::spec_from_flags(kingside, queenside).spec_has_queenside() == queenside,
        CastleRights::spec_from_flags(rights.spec_has_kingside(), rights.spec_has_queenside()) == rights,
{
}

/// Whether the side to move can still move, as the chess engine reports it.
#[derive(Clone, Copy, Debug, PartialEq, Eq, Structural)]
pub enum BoardStatus {
    Ongoing,
    Stalemate,
    Checkmate,
}

/// A move from one square to another, with the kind a pawn is promoted to.
#[derive(Clone, Copy, Debug, PartialEq, Eq, Structural)]
pub struct BoardMove {
    pub from: Square,
    pub to: Square,
    pub promotion: Option<PieceType>,
}

/// A move as the chess engine lists it: the indices of its squares and of its promotion kind.
pub open spec fn move_code(m: BoardMove) -> (u8, u8, Option<u8>) {
    (
        m.from.idx() as u8,
        m.to.idx() as u8,
        match m.promotion {
            Some(t) => Some(t.idx() as u8),
            None => None,
        },
    )
}

/// The piece kind with the given index (pawn 0 up to king 5).
pub open spec fn spec_piece_type_at(i: int) -> PieceType {
    if i == 0 {
        PieceType::Pawn
    } else if i == 1 {
        PieceType::Knight
    } else if i == 2 {
        PieceType::Bishop
    } else if i == 3 {
        PieceType::Rook
    } else if i == 4 {
        PieceType::Queen
    } else {
        PieceType::King
    }
}

/// The piece a number stands for (see `board_squares`).
pub open spec fn spec_decode_piece(c: int) -> Option<PieceMeta> {
    match (code_color(c), code_kind(c)) {
        (Some(color), Some(k)) => Some(PieceMeta { color, typ: spec_piece_type_at(k as int) }),
        _ => None,
    }
}

/// The piece kind with the given index (pawn 0 up to king 5).
pub fn piece_type_from_index(i: u8) -> (t: PieceType)
    requires
        i < 6,
    ensures
        t.idx() == i,
        t == spec_piece_type_at(i as int),
{
    match i {
        0 => PieceType::Pawn,
        1 => PieceType::Knight,
        2 => PieceType::Bishop,
        3 => PieceType::Rook,
        4 => PieceType::Queen,
        _ => PieceType::King,
    }
}

/// The plain content of a chess board, as the chess engine reports it: the pieces on the 64
/// squares, the side to move, the castle rights, the en passant square, the kings, the position
/// hash, whether the side to move can still move, its legal moves and the pieces that check it.
pub struct Position {
    pub side_to_move: PieceColor,
    /// The piece on each square, by the square's index.
    pub squares: Vec<Option<PieceMeta>>,
    pub white_castle_rights: CastleRights,
    pub black_castle_rights: CastleRights,
    /// The square of the pawn that can be taken en passant, if any.
    pub en_passant: Option<Square>,
    pub white_king: Square,
    pub black_king: Square,
    pub hash: u64,
    pub status: BoardStatus,
    pub legal_moves: Vec<BoardMove>,
    /// The squares of the pieces that give check, one bit per square index.
    pub checkers: u64,
    /// The FEN of the board as the engine writes it, with the move counters " 0 1".
    pub fen: Vec<char>,
}

impl Position {
    /// There is an entry for each of the 64 squares.
    pub open spec fn wf(&self) -> bool {
        &&& self.squares@.len() == 64
        &&& self.fen@.len() >= 4
        &&& self.fen@.subrange(self.fen@.len() - 4, self.fen@.len() as int) == " 0 1"@
    }

    /// The castle rights of the given side.
    pub open spec fn spec_castle_rights(&self, color: PieceColor) -> CastleRights {
        match color {
            PieceColor::White => self.white_castle_rights,
            PieceColor::Black => self.black_castle_rights,
        }
    }

    /// The square of the given side's king.
    pub open spec fn spec_king_square(&self, color: PieceColor) -> Square {
        match color {
            PieceColor::White => self.white_king,
            PieceColor::Black => self.black_king,
        }
    }

    /// The piece on a square.
    pub open spec fn piece_at(&self, sq: Square) -> Option<PieceMeta> {
        self.squares@[sq.idx()]
    }

    /// The position holds what the chess board holds.
    pub open spec fn matches_board(&self, b: chess::Board) -> bool {
        let f = board_fields(b);
        &&& color_code(self.side_to_move) == f[0]
        &&& self.squares@.len() == 64
        &&& forall|i: int| 0 <= i < 64 ==> #[trigger] self.squares@[i] == spec_decode_piece(board_squares(b)[i])
        &&& rights_code(self.white_castle_rights) == f[1]
        &&& rights_code(self.black_castle_rights) == f[2]
        &&& match self.en_passant {
            Some(sq) => sq.idx() == f[3],
            None => f[3] == -1,
        }
        &&& self.white_king.idx() == f[4]
        &&& self.black_king.idx() == f[5]
        &&& board_squares(b)[f[4]] == king_code(PieceColor::White)
        &&& board_squares(b)[f[5]] == king_code(PieceColor::Black)
        &&& self.hash == f[6]
        &&& status_code(self.status) == f[7]
        &&& self.checkers == f[8]
        &&& self.legal_moves@.map_values(|m: BoardMove| move_code(m)) == board_legal(b)
        &&& self.fen@ == builder_placement(board_squares(b)) + spec_builder_tail(spec_board_builder_fields(b))
        &&& !builder_placement(board_squares(b)).contains(' ')
        &&& forall|i: int|
            0 <= i < builder_placement(board_squares(b)).len() ==> placement_char(
                #[trigger] builder_placement(board_squares(b))[i],
            )
        &&& placement_squares(builder_placement(board_squares(b))) == board_squares(b)
    }

    /// The content of the given board.
    pub fn of(board: &chess::Board) -> (p: Position)
        requires
            board_sane(*board),
        ensures
            p.wf(),
            p.matches_board(*board),
    {
        let mut squares: Vec<Option<PieceMeta>> = Vec::new();
        let mut i: u8 = 0;
        while i < 64
            invariant
                i <= 64,
                squares@.len() == i,
                forall|j: int| 0 <= j < i ==> #[trigger] squares@[j] == spec_decode_piece(board_squares(*board)[j]),
            decreases 64 - i,
        {
            let sq = Square::from_index(i);
            let color = board_color_on(board, sq);
            let typ = board_piece_on(board, sq);
            let meta = match (color, typ) {
                (Some(color), Some(t)) => Some(PieceMeta::new(color, piece_type_from_index(t))),
                _ => None,
            };
            squares.push(meta);
            i = i + 1;
        }
        let raw_moves = board_legal_moves(board);
        let mut legal_moves: Vec<BoardMove> = Vec::new();
        let mut j: usize = 0;
        while j < raw_moves.len()
            invariant
                j <= raw_moves@.len(),
                legal_moves@.len() == j,
                legal_moves@.map_values(|m: BoardMove| move_code(m)) == raw_moves@.take(j as int),
                forall|k: int| 0 <= k < raw_moves@.len() ==> #[trigger] raw_moves@[k].0 < 64
                    && raw_moves@[k].1 < 64 && (raw_moves@[k].2 matches Some(t) ==> t < 6),
            decreases raw_moves@.len() - j,
        {
            let (from, to, promo) = raw_moves[j];
            let promotion = match promo {
                Some(t) => Some(piece_type_from_index(t)),
                None => None,
            };
            legal_moves.push(
                BoardMove {
                    from: Square::from_index(from),
                    to: Square::from_index(to),
                    promotion,
                },
            );
            j = j + 1;
            assert(legal_moves@.map_values(|m: BoardMove| move_code(m)) =~= raw_moves@.take(j as int));
        }
        assert(raw_moves@.take(raw_moves@.len() as int) =~= raw_moves@);
        let en_passant = match board_en_passant(board) {
            Some(s) => Some(Square::from_index(s)),
            None => None,
        };
        let text = board_to_fen(board);
        let fen = str_chars(text.as_str());
        proof {
            let placement = builder_placement(board_squares(*board));
            assert(text@.take(placement.len() as int) =~= placement);
            assert forall|i: int| 0 <= i < placement.len() implies placement_char(#[trigger] placement[i]) by {
                assert(text@[i] == placement[i]);
            }
            reveal_strlit(" 0 1");
            reveal_strlit("0 1");
            reveal_strlit(" ");
            let head = builder_placement(board_squares(*board)) + spec_builder_fields_text(
                spec_board_builder_fields(*board),
            ).drop_last();
            assert(spec_builder_fields_text(spec_board_builder_fields(*board)) =~= spec_builder_fields_text(
                spec_board_builder_fields(*board),
            ).drop_last() + " "@);
            assert(fen@ =~= head + " 0 1"@);
            assert(fen@.subrange(fen@.len() - 4, fen@.len() as int) =~= " 0 1"@);
        }
        Position {
            fen,
            side_to_move: board_side_to_move(board),
            squares,
            white_castle_rights: board_castle_rights(board, PieceColor::White),
            black_castle_rights: board_castle_rights(board, PieceColor::Black),
            en_passant,
            white_king: Square::from_index(board_king_square(board, PieceColor::White)),
            black_king: Square::from_index(board_king_square(board, PieceColor::Black)),
            hash: board_hash(board),
            status: board_status(board),
            legal_moves,
            checkers: board_checkers(board),
        }
    }
}


/// The letter the chess engine writes for a piece: p, n, b, r, q or k, in upper case for White.
pub open spec fn spec_piece_letter(m: PieceMeta) -> char {
    let lower = match m.typ {
        PieceType::Pawn => 'p',
        PieceType::Knight => 'n',
        PieceType::Bishop => 'b',
        PieceType::Rook => 'r',
        PieceType::Queen => 'q',
        PieceType::King => 'k',
    };
    let upper = match m.typ {
        PieceType::Pawn => 'P',
        PieceType::Knight => 'N',
        PieceType::Bishop => 'B',
        PieceType::Rook => 'R',
        PieceType::Queen => 'Q',
        PieceType::King => 'K',
    };
    match m.color {
        PieceColor::White => upper,
        PieceColor::Black => lower,
    }
}

/// The letter of a piece (see `spec_piece_letter`).
pub fn piece_letter(m: PieceMeta) -> (c: char)
    ensures
        c == spec_piece_letter(m),
{
    let white = match m.color {
        PieceColor::White => true,
        PieceColor::Black => false,
    };
    match m.typ {
        PieceType::Pawn => if white { 'P' } else { 'p' },
        PieceType::Knight => if white { 'N' } else { 'n' },
        PieceType::Bishop => if white { 'B' } else { 'b' },
        PieceType::Rook => if white { 'R' } else { 'r' },
        PieceType::Queen => if white { 'Q' } else { 'q' },
        PieceType::King => if white { 'K' } else { 'k' },
    }
}

/// The character at position `k` of the board drawing: eight lines of sixteen characters, the
/// last without its line break; a line shows one rank, from the eighth down to the first, its
/// squares from file a to file h, each a piece letter or `.`, separated by single spaces.
pub open spec fn spec_pretty_char(squares: Seq<Option<PieceMeta>>, k: int) -> char {
    let col = k % 16;
    if col == 15 {
        '\n'
    } else if col % 2 == 1 {
        ' '
    } else {
        match squares[(7 - k / 16) * 8 + col / 2] {
            Some(m) => spec_piece_letter(m),
            None => '.',
        }
    }
}

/// The board drawing of the given squares (see `spec_pretty_char`).
pub open spec fn spec_pretty(squares: Seq<Option<PieceMeta>>) -> Seq<char> {
    Seq::new(127, |k: int| spec_pretty_char(squares, k))
}

/// The position of the character of the square on the given line and file, in the drawing.
proof fn lemma_pretty_cell(line: int, file: int)
    requires
        0 <= line < 8,
        0 <= file < 8,
    ensures
        (line * 16 + 2 * file) / 16 == line,
        (line * 16 + 2 * file) % 16 == 2 * file,
        (line * 16 + 2 * file + 1) / 16 == line,
        (line * 16 + 2 * file + 1) % 16 == 2 * file + 1,
        line > 0 ==> (line * 16 - 1) % 16 == 15,
{
    vstd::arithmetic::div_mod::lemma_fundamental_div_mod_converse(line * 16 + 2 * file, 16, line, 2 * file);
    vstd::arithmetic::div_mod::lemma_fundamental_div_mod_converse(line * 16 + 2 * file + 1, 16, line, 2 * file + 1);
    if line > 0 {
        vstd::arithmetic::div_mod::lemma_fundamental_div_mod_converse(line * 16 - 1, 16, line - 1, 15);
    }
}

impl Position {
    /// The board drawn as text, rank 8 on the first line (see `spec_pretty`).
    pub fn to_pretty_string(&self) -> (s: String)
        requires
            self.wf(),
        ensures
            s@ == spec_pretty(self.squares@),
    {
        let ghost sq = self.squares@;
        let mut v: Vec<char> = Vec::new();
        let mut line: u8 = 0;
        while line < 8
            invariant
                line <= 8,
                sq == self.squares@,
                sq.len() == 64,
                v@.len() == if line == 0 { 0 } else { line * 16 - 1 },
                forall|k: int| 0 <= k < v@.len() ==> #[trigger] v@[k] == spec_pretty_char(sq, k),
            decreases 8 - line,
        {
            let mut file: u8 = 0;
            while file < 8
                invariant
                    line < 8,
                    file <= 8,
                    sq == self.squares@,
                    sq.len() == 64,
                    v@.len() == if file == 0 {
                        if line == 0 { 0 } else { line * 16 - 1 }
                    } else if file == 8 {
                        line * 16 + 15
                    } else {
                        line * 16 + 2 * file
                    },
                    forall|k: int| 0 <= k < v@.len() ==> #[trigger] v@[k] == spec_pretty_char(sq, k),
                decreases 8 - file,
            {
                proof {
                    lemma_pretty_cell(line as int, file as int);
                }
                if line > 0 && file == 0 {
                    v.push('\n');
                }
                let i = (7 - line) as usize * 8 + file as usize;
                let c = match self.squares[i] {
                    Some(m) => piece_letter(m),
                    None => '.',
                };
                v.push(c);
                if file < 7 {
                    v.push(' ');
                }
                file = file + 1;
            }
            line = line + 1;
        }
        assert(v@ =~= spec_pretty(sq));
        string_from_chars(v.as_slice())
    }
}

} // verus!
